pub mod worker;
pub mod post_list;
pub mod runner;
