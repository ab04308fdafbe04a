use stride::cli::plan::Operation;
use stride::connection::exchange::Gid;
use stride::utils::display::{
    create_header, format_qp_details, headers_only_lines, min_required_latency_table_width,
    min_required_table_width, ColumnFormatter, ConfigField, QueuePairDetail, TestConfiguration,
    TestType, DEFAULT_HEADER_MARGIN_LEN, DEFAULT_HEADER_WIDTH, DEFAULT_LAT_HEADER_WIDTH,
};

fn config(test_type: TestType, uses_immediate_data: bool) -> TestConfiguration {
    TestConfiguration {
        device: "mlx5_0".to_string(),
        transport: "IB".to_string(),
        qp_count: 1,
        connection_type: "RC".to_string(),
        mtu: 4096,
        gid_type: "RoceV2".to_string(),
        rx_depth: 512,
        tx_depth: 128,
        post_list: 1,
        test_type,
        uses_immediate_data,
    }
}

fn field_line(key: &str, value: &str, key_width: usize, value_width: usize) -> String {
    format!(
        "{:padding$}{:<key_width$}:{:spacing$}{:<value_width$}\n",
        "",
        key,
        "",
        value,
        padding = 1,
        key_width = key_width,
        spacing = 1,
        value_width = value_width
    )
}

#[test]
fn header_centres_text_in_width() {
    let h = create_header("Bandwidth Results", DEFAULT_HEADER_WIDTH, DEFAULT_HEADER_MARGIN_LEN);
    let expected = format!("{}  Bandwidth Results  {}", "-".repeat(34), "-".repeat(35));
    assert_eq!(h, expected);
    assert_eq!(h.chars().count(), DEFAULT_HEADER_WIDTH);
}

#[test]
fn header_with_exact_width_has_no_dashes() {
    let h = create_header("abcd", 8, 2);
    assert_eq!(h, "  abcd  ");
}

#[test]
fn minimum_table_widths() {
    assert_eq!(min_required_table_width(), 90);
    assert_eq!(min_required_latency_table_width(), 134);
    assert!(min_required_table_width() <= DEFAULT_HEADER_WIDTH);
    assert!(min_required_latency_table_width() <= DEFAULT_LAT_HEADER_WIDTH);
}

#[test]
fn test_type_titles_and_kinds() {
    assert_eq!(TestType::SendBandwidth.to_string(), "RDMA Send Bandwidth Test");
    assert_eq!(TestType::ReadLatency.to_string(), "RDMA Read Latency Test");
    assert!(TestType::WriteLatency.is_latency());
    assert!(!TestType::WriteBandwidth.is_latency());
    assert_eq!(TestType::SendLatency.header_width(), DEFAULT_LAT_HEADER_WIDTH);
    assert_eq!(TestType::ReadBandwidth.header_width(), DEFAULT_HEADER_WIDTH);
}

#[test]
fn test_type_of_operation() {
    assert_eq!(TestType::for_operation(Operation::Send, true), TestType::SendLatency);
    assert_eq!(TestType::for_operation(Operation::Write, false), TestType::WriteBandwidth);
    assert_eq!(TestType::for_operation(Operation::Read, true), TestType::ReadLatency);
    assert_eq!(TestType::for_operation(Operation::Atomic, true), TestType::SendBandwidth);
}

#[test]
fn configuration_block_of_send_test() {
    let c = config(TestType::SendBandwidth, false);
    let rows = [
        ("Device", "mlx5_0"),
        ("Transport", "IB"),
        ("QP Count", "1"),
        ("Connection Type", "RC"),
        ("MTU", "4096"),
        ("GID Type", "RoceV2"),
        ("Rx Depth", "512"),
        ("Tx Depth", "128"),
        ("Post List", "1"),
    ];
    let mut expected = String::new();
    for (k, v) in rows.iter() {
        expected.push_str(&field_line(k, v, 15, 6));
    }
    assert_eq!(c.to_string(), expected);
}

#[test]
fn configuration_block_leaves_out_rx_depth_of_plain_writes_and_reads() {
    let write = config(TestType::WriteBandwidth, false).to_config_fields();
    assert_eq!(write.len(), 8);
    assert!(write.iter().all(|f| f.key != "Rx Depth"));
    let write_imm = config(TestType::WriteLatency, true).to_config_fields();
    assert_eq!(write_imm.len(), 9);
    assert_eq!(write_imm[6].key, "Rx Depth");
    assert_eq!(write_imm[6].value, "512");
    let read = config(TestType::ReadLatency, true).to_config_fields();
    assert_eq!(read.len(), 8);
}

#[test]
fn column_formatter_lays_out_columns() {
    let fields = vec![
        ConfigField::new("a", "1".to_string()),
        ConfigField::new("bb", "22".to_string()),
        ConfigField::new("c", "333".to_string()),
    ];
    let f = ColumnFormatter::new(fields, 2);
    // one column: padding, key, colon and spacing, value
    assert_eq!(f.get_single_column_width(), 1 + 2 + 3 + 1);
    // two columns of 7 with 10 spaces between them
    assert_eq!(f.get_total_width(), 7 * 2 + 10);
    assert!(f.validates_width(24));
    assert!(!f.validates_width(23));
    // the first column is followed by the spacing even where the second is empty
    let expected = format!(
        "{}{}{}\n{}{}\n",
        field_line("a", "1", 2, 3).trim_end_matches('\n'),
        " ".repeat(10),
        field_line("c", "333", 2, 3).trim_end_matches('\n'),
        field_line("bb", "22", 2, 3).trim_end_matches('\n'),
        " ".repeat(10),
    );
    assert_eq!(f.format(), expected);
}

#[test]
fn empty_column_formatter_prints_nothing() {
    let f = ColumnFormatter::new(Vec::new(), 10);
    assert_eq!(f.format(), "");
    assert_eq!(f.get_total_width(), 2);
}

fn gid(bytes: [u8; 16]) -> Gid {
    Gid { raw: bytes }
}

#[test]
fn connection_details_block() {
    let details = [QueuePairDetail {
        qp_index: 0,
        local_qpn: 0x04fc,
        local_psn: 0x1234,
        remote_qpn: 0x05fd,
        remote_psn: 0xabcdef,
    }];
    let mut remote = [0u8; 16];
    remote[0] = 0xfe;
    remote[1] = 0x80;
    remote[15] = 0x01;
    let text = format_qp_details(&details, &gid([0u8; 16]), &gid(remote));
    let expected = " QP #00000000: (Local QPN: 0x04fc PSN: 0x001234) -> (Remote QPN: 0x05fd PSN: 0xabcdef)\n \
Local  GID: GID: 0000:0000:0000:0000:0000:0000:0000:0000\n \
Remote GID: GID: fe80:0000:0000:0000:0000:0000:0000:0001";
    assert_eq!(text, expected);
}

#[test]
fn connection_details_keep_wide_numbers() {
    let details = [QueuePairDetail {
        qp_index: 123456789,
        local_qpn: 0x123456,
        local_psn: 0x1,
        remote_qpn: 0x0,
        remote_psn: 0xffffff,
    }];
    let text = format_qp_details(&details, &gid([0u8; 16]), &gid([0u8; 16]));
    assert!(text.starts_with(
        " QP #123456789: (Local QPN: 0x123456 PSN: 0x000001) -> (Remote QPN: 0x0000 PSN: 0xffffff)\n"
    ));
}

#[test]
fn headers_only_lines_of_a_report() {
    let c = config(TestType::SendLatency, false);
    let details = [QueuePairDetail {
        qp_index: 1,
        local_qpn: 1,
        local_psn: 2,
        remote_qpn: 3,
        remote_psn: 4,
    }];
    let g = gid([0u8; 16]);
    let lines = headers_only_lines(&c, &details, &g, &g, DEFAULT_LAT_HEADER_WIDTH);
    assert_eq!(lines.len(), 4);
    assert_eq!(
        lines[0],
        create_header("RDMA Send Latency Test", DEFAULT_LAT_HEADER_WIDTH, DEFAULT_HEADER_MARGIN_LEN)
    );
    assert_eq!(lines[1], c.to_string());
    assert_eq!(
        lines[2],
        create_header("Connection Details", DEFAULT_LAT_HEADER_WIDTH, DEFAULT_HEADER_MARGIN_LEN)
    );
    assert_eq!(lines[3], format!("{}\n", format_qp_details(&details, &g, &g)));
}

#[test]
fn report_headers_as_in_readme() {
    assert_eq!(
        create_header("RDMA Write Bandwidth Test", DEFAULT_HEADER_WIDTH, DEFAULT_HEADER_MARGIN_LEN),
        "------------------------------  RDMA Write Bandwidth Test  -------------------------------"
    );
    assert_eq!(
        create_header("Connection Details", DEFAULT_HEADER_WIDTH, DEFAULT_HEADER_MARGIN_LEN),
        "----------------------------------  Connection Details  ----------------------------------"
    );
    assert_eq!(
        create_header("RDMA Write Latency Test", DEFAULT_LAT_HEADER_WIDTH, DEFAULT_HEADER_MARGIN_LEN),
        format!("{}  RDMA Write Latency Test  {}", "-".repeat(56), "-".repeat(57))
    );
}
