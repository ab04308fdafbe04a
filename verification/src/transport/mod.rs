pub mod flow_context;
pub mod flow_control;
