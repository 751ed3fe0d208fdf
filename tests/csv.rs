use codemelted::csv::{
    component_csv_header, csv_join, csv_join_strs, decimal_string, disk_csv_header,
    network_csv_header, network_csv_row, performance_csv_header, process_csv_header,
    CNetworkCounters,
};

#[test]
fn csv_headers() {
    assert_eq!(component_csv_header(), "system_id,label,temp_current_c,temp_max_c,temp_critical_c");
    assert_eq!(
        disk_csv_header(),
        "system_id,name,disk_available_bytes,disk_used_bytes,disk_total_bytes,disk_load,file_system,is_readonly,is_removable,kind,mount_point"
    );
    assert_eq!(
        network_csv_header(),
        "system_id,name,mac_address,mtu,network_total_rx_bytes,network_total_rx_errors,network_total_rx_packets,network_total_tx_bytes,network_total_tx_errors,network_total_tx_packets"
    );
    assert_eq!(
        performance_csv_header(),
        "system_id,cpu_arch,cpu_count,cpu_load,memory_available_bytes,memory_free_bytes,memory_used_bytes,memory_total_bytes,memory_load,swap_free_bytes,swap_used_bytes,swap_total_bytes,swap_load"
    );
    assert_eq!(
        process_csv_header(),
        "system_id,pid,cpu_usage,cwd,disk_total_read_bytes,disk_total_written_bytes,exe,group_id,memory_usage_bytes,memory_virtual_bytes,name,open_files,parent_pid,root,session_id,status,time_started_seconds,time_running_seconds,user_id"
    );
}

#[test]
fn csv_joining() {
    assert_eq!(csv_join(&Vec::new()), "");
    assert_eq!(csv_join(&vec![String::from("a")]), "a");
    assert_eq!(csv_join(&vec![String::from("a"), String::new(), String::from("c")]), "a,,c");
    assert_eq!(csv_join_strs(&vec!["x", "y"]), "x,y");
}

#[test]
fn decimal_numerals() {
    assert_eq!(decimal_string(0), "0");
    assert_eq!(decimal_string(7), "7");
    assert_eq!(decimal_string(10), "10");
    assert_eq!(decimal_string(1234567), "1234567");
    assert_eq!(decimal_string(u64::MAX), "18446744073709551615");
}

#[test]
fn network_row() {
    let c = CNetworkCounters {
        mtu: 1500,
        rx_bytes: 100,
        rx_errors: 0,
        rx_packets: 3,
        tx_bytes: 250,
        tx_errors: 1,
        tx_packets: 4,
    };
    assert_eq!(
        network_csv_row("host", "eth0", "00:11:22:33:44:55", &c),
        "host,eth0,00:11:22:33:44:55,1500,100,0,3,250,1,4\n"
    );
}
