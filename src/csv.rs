//! CSV lines: the header rows of the system monitors, and rows of integer
//! and text fields.

use vstd::prelude::*;

verus! {

/// Fields joined by commas.
pub open spec fn csv_line(cols: Seq<Seq<char>>) -> Seq<char>
    decreases cols.len(),
{
    if cols.len() == 0 {
        seq![]
    } else if cols.len() == 1 {
        cols[0]
    } else {
        csv_line(cols.drop_last()) + ","@ + cols.last()
    }
}

pub open spec fn str_views(cols: Seq<&str>) -> Seq<Seq<char>> {
    cols.map_values(|s: &str| s@)
}

pub open spec fn string_views(cols: Seq<String>) -> Seq<Seq<char>> {
    cols.map_values(|s: String| s@)
}

/// Joins fields with commas.
pub fn csv_join(cols: &Vec<String>) -> (r: String)
    ensures
        r@ == csv_line(string_views(cols@)),
{
    let mut r = String::new();
    let mut i: usize = 0;
    while i < cols.len()
        invariant
            i <= cols.len(),
            r@ == csv_line(string_views(cols@.subrange(0, i as int))),
        decreases cols.len() - i,
    {
        let ghost prev = cols@.subrange(0, i as int);
        let ghost next = cols@.subrange(0, i + 1);
        assert(next.drop_last() =~= prev);
        assert(string_views(next).drop_last() =~= string_views(prev));
        if i > 0 {
            r.append(",");
        }
        r.append(cols[i].as_str());
        i += 1;
    }
    assert(cols@.subrange(0, cols.len() as int) =~= cols@);
    r
}

/// Joins fields with commas.
pub fn csv_join_strs(cols: &Vec<&str>) -> (r: String)
    ensures
        r@ == csv_line(str_views(cols@)),
{
    let mut r = String::new();
    let mut i: usize = 0;
    while i < cols.len()
        invariant
            i <= cols.len(),
            r@ == csv_line(str_views(cols@.subrange(0, i as int))),
        decreases cols.len() - i,
    {
        let ghost prev = cols@.subrange(0, i as int);
        let ghost next = cols@.subrange(0, i + 1);
        assert(next.drop_last() =~= prev);
        assert(str_views(next).drop_last() =~= str_views(prev));
        if i > 0 {
            r.append(",");
        }
        r.append(cols[i]);
        i += 1;
    }
    assert(cols@.subrange(0, cols.len() as int) =~= cols@);
    r
}

/// The text of a decimal digit.
pub open spec fn digit_text(d: u64) -> Seq<char> {
    if d == 0 {
        "0"@
    } else if d == 1 {
        "1"@
    } else if d == 2 {
        "2"@
    } else if d == 3 {
        "3"@
    } else if d == 4 {
        "4"@
    } else if d == 5 {
        "5"@
    } else if d == 6 {
        "6"@
    } else if d == 7 {
        "7"@
    } else if d == 8 {
        "8"@
    } else {
        "9"@
    }
}

/// The decimal numeral of `n`, without leading zeros.
pub open spec fn decimal_text(n: u64) -> Seq<char>
    decreases n,
{
    if n < 10 {
        digit_text(n)
    } else {
        decimal_text(n / 10) + digit_text(n % 10)
    }
}

fn digit_string(d: u64) -> (r: String)
    requires
        d < 10,
    ensures
        r@ == digit_text(d),
{
    if d == 0 {
        String::from_str("0")
    } else if d == 1 {
        String::from_str("1")
    } else if d == 2 {
        String::from_str("2")
    } else if d == 3 {
        String::from_str("3")
    } else if d == 4 {
        String::from_str("4")
    } else if d == 5 {
        String::from_str("5")
    } else if d == 6 {
        String::from_str("6")
    } else if d == 7 {
        String::from_str("7")
    } else if d == 8 {
        String::from_str("8")
    } else {
        String::from_str("9")
    }
}

/// The decimal numeral of `n`.
pub fn decimal_string(n: u64) -> (r: String)
    ensures
        r@ == decimal_text(n),
    decreases n,
{
    if n < 10 {
        digit_string(n)
    } else {
        let mut r = decimal_string(n / 10);
        let d = digit_string(n % 10);
        r.append(d.as_str());
        r
    }
}

pub open spec fn component_columns() -> Seq<Seq<char>> {
    seq!["system_id"@, "label"@, "temp_current_c"@, "temp_max_c"@, "temp_critical_c"@]
}

pub open spec fn disk_columns() -> Seq<Seq<char>> {
    seq![
        "system_id"@,
        "name"@,
        "disk_available_bytes"@,
        "disk_used_bytes"@,
        "disk_total_bytes"@,
        "disk_load"@,
        "file_system"@,
        "is_readonly"@,
        "is_removable"@,
        "kind"@,
        "mount_point"@,
    ]
}

pub open spec fn network_columns() -> Seq<Seq<char>> {
    seq![
        "system_id"@,
        "name"@,
        "mac_address"@,
        "mtu"@,
        "network_total_rx_bytes"@,
        "network_total_rx_errors"@,
        "network_total_rx_packets"@,
        "network_total_tx_bytes"@,
        "network_total_tx_errors"@,
        "network_total_tx_packets"@,
    ]
}

pub open spec fn performance_columns() -> Seq<Seq<char>> {
    seq![
        "system_id"@,
        "cpu_arch"@,
        "cpu_count"@,
        "cpu_load"@,
        "memory_available_bytes"@,
        "memory_free_bytes"@,
        "memory_used_bytes"@,
        "memory_total_bytes"@,
        "memory_load"@,
        "swap_free_bytes"@,
        "swap_used_bytes"@,
        "swap_total_bytes"@,
        "swap_load"@,
    ]
}

pub open spec fn process_columns() -> Seq<Seq<char>> {
    seq![
        "system_id"@,
        "pid"@,
        "cpu_usage"@,
        "cwd"@,
        "disk_total_read_bytes"@,
        "disk_total_written_bytes"@,
        "exe"@,
        "group_id"@,
        "memory_usage_bytes"@,
        "memory_virtual_bytes"@,
        "name"@,
        "open_files"@,
        "parent_pid"@,
        "root"@,
        "session_id"@,
        "status"@,
        "time_started_seconds"@,
        "time_running_seconds"@,
        "user_id"@,
    ]
}

/// The header row of the component monitor.
pub fn component_csv_header() -> (r: String)
    ensures
        r@ == csv_line(component_columns()),
{
    let cols = vec!["system_id", "label", "temp_current_c", "temp_max_c", "temp_critical_c"];
    assert(str_views(cols@) =~= component_columns());
    csv_join_strs(&cols)
}

/// The header row of the disk monitor.
pub fn disk_csv_header() -> (r: String)
    ensures
        r@ == csv_line(disk_columns()),
{
    let cols = vec![
        "system_id",
        "name",
        "disk_available_bytes",
        "disk_used_bytes",
        "disk_total_bytes",
        "disk_load",
        "file_system",
        "is_readonly",
        "is_removable",
        "kind",
        "mount_point",
    ];
    assert(str_views(cols@) =~= disk_columns());
    csv_join_strs(&cols)
}

/// The header row of the network monitor.
pub fn network_csv_header() -> (r: String)
    ensures
        r@ == csv_line(network_columns()),
{
    let cols = vec![
        "system_id",
        "name",
        "mac_address",
        "mtu",
        "network_total_rx_bytes",
        "network_total_rx_errors",
        "network_total_rx_packets",
        "network_total_tx_bytes",
        "network_total_tx_errors",
        "network_total_tx_packets",
    ];
    assert(str_views(cols@) =~= network_columns());
    csv_join_strs(&cols)
}

/// The header row of the performance monitor.
pub fn performance_csv_header() -> (r: String)
    ensures
        r@ == csv_line(performance_columns()),
{
    let cols = vec![
        "system_id",
        "cpu_arch",
        "cpu_count",
        "cpu_load",
        "memory_available_bytes",
        "memory_free_bytes",
        "memory_used_bytes",
        "memory_total_bytes",
        "memory_load",
        "swap_free_bytes",
        "swap_used_bytes",
        "swap_total_bytes",
        "swap_load",
    ];
    assert(str_views(cols@) =~= performance_columns());
    csv_join_strs(&cols)
}

/// The header row of the process monitor.
pub fn process_csv_header() -> (r: String)
    ensures
        r@ == csv_line(process_columns()),
{
    let cols = vec![
        "system_id",
        "pid",
        "cpu_usage",
        "cwd",
        "disk_total_read_bytes",
        "disk_total_written_bytes",
        "exe",
        "group_id",
        "memory_usage_bytes",
        "memory_virtual_bytes",
        "name",
        "open_files",
        "parent_pid",
        "root",
        "session_id",
        "status",
        "time_started_seconds",
        "time_running_seconds",
        "user_id",
    ];
    assert(str_views(cols@) =~= process_columns());
    csv_join_strs(&cols)
}

/// The counters of one network interface, in the monitor's column order.
pub struct CNetworkCounters {
    pub mtu: u64,
    pub rx_bytes: u64,
    pub rx_errors: u64,
    pub rx_packets: u64,
    pub tx_bytes: u64,
    pub tx_errors: u64,
    pub tx_packets: u64,
}

pub open spec fn network_row_fields(
    system_id: Seq<char>,
    name: Seq<char>,
    mac: Seq<char>,
    c: CNetworkCounters,
) -> Seq<Seq<char>> {
    seq![
        system_id,
        name,
        mac,
        decimal_text(c.mtu),
        decimal_text(c.rx_bytes),
        decimal_text(c.rx_errors),
        decimal_text(c.rx_packets),
        decimal_text(c.tx_bytes),
        decimal_text(c.tx_errors),
        decimal_text(c.tx_packets),
    ]
}

/// One row of the network monitor, ending in a newline.
pub fn network_csv_row(system_id: &str, name: &str, mac: &str, c: &CNetworkCounters) -> (r: String)
    ensures
        r@ == csv_line(network_row_fields(system_id@, name@, mac@, *c)) + "\n"@,
{
    let mut fields: Vec<String> = Vec::new();
    fields.push(String::from_str(system_id));
    fields.push(String::from_str(name));
    fields.push(String::from_str(mac));
    fields.push(decimal_string(c.mtu));
    fields.push(decimal_string(c.rx_bytes));
    fields.push(decimal_string(c.rx_errors));
    fields.push(decimal_string(c.rx_packets));
    fields.push(decimal_string(c.tx_bytes));
    fields.push(decimal_string(c.tx_errors));
    fields.push(decimal_string(c.tx_packets));
    assert(string_views(fields@) =~= network_row_fields(system_id@, name@, mac@, *c));
    let mut r = csv_join(&fields);
    r.append("\n");
    r
}

} // verus!
