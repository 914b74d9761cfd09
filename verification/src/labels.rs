//! Labels for the numeric type codes of programs and maps.
//!
//! The codes are the kernel's: a label's place in its table is its code. A
//! code beyond the table comes from a kernel newer than the table and is
//! shown as `UNKNOWN`.

use vstd::prelude::*;

verus! {

/// The labels of the program types, each at the index of its code.
pub open spec fn prog_type_table() -> Seq<Seq<char>> {
    seq![
        "UNSPEC"@,
        "SOCKET_FILTER"@,
        "KPROBE"@,
        "SCHED_CLS"@,
        "SCHED_ACT"@,
        "TRACEPOINT"@,
        "XDP"@,
        "PERF_EVENT"@,
        "CGROUP_SKB"@,
        "CGROUP_SOCK"@,
        "LWT_IN"@,
        "LWT_OUT"@,
        "LWT_XMIT"@,
        "SOCK_OPS"@,
        "SK_SKB"@,
        "CGROUP_DEVICE"@,
        "SK_MSG"@,
        "RAW_TRACEPOINT"@,
        "CGROUP_SOCK_ADDR"@,
        "LWT_SEG6LOCAL"@,
        "LIRC_MODE2"@,
        "SK_REUSEPORT"@,
        "FLOW_DISSECTOR"@,
        "CGROUP_SYSCTL"@,
        "RAW_TRACEPOINT_WRITABLE"@,
        "CGROUP_SOCKOPT"@,
        "TRACING"@,
        "STRUCT_OPS"@,
        "EXT"@,
        "LSM"@,
        "SK_LOOKUP"@,
        "SYSCALL"@,
        "NETFILTER"@,
    ]
}

/// The labels of the map types, each at the index of its code.
pub open spec fn map_type_table() -> Seq<Seq<char>> {
    seq![
        "UNSPEC"@,
        "HASH"@,
        "ARRAY"@,
        "PROG_ARRAY"@,
        "PERF_EVENT_ARRAY"@,
        "PERCPU_HASH"@,
        "PERCPU_ARRAY"@,
        "STACK_TRACE"@,
        "CGROUP_ARRAY"@,
        "LRU_HASH"@,
        "LRU_PERCPU_HASH"@,
        "LPM_TRIE"@,
        "ARRAY_OF_MAPS"@,
        "HASH_OF_MAPS"@,
        "DEVMAP"@,
        "SOCKMAP"@,
        "CPUMAP"@,
        "XSKMAP"@,
        "SOCKHASH"@,
        "CGROUP_STORAGE"@,
        "REUSEPORT_SOCKARRAY"@,
        "PERCPU_CGROUP_STORAGE"@,
        "QUEUE"@,
        "STACK"@,
        "SK_STORAGE"@,
        "DEVMAP_HASH"@,
        "STRUCT_OPS"@,
        "RINGBUF"@,
        "INODE_STORAGE"@,
        "TASK_STORAGE"@,
        "BLOOM_FILTER"@,
        "USER_RINGBUF"@,
        "CGRP_STORAGE"@,
        "ARENA"@,
        "INSN_ARRAY"@,
    ]
}

/// The label at `code` in `table`, or `UNKNOWN` beyond its end.
pub open spec fn label_in(table: Seq<Seq<char>>, code: u32) -> Seq<char> {
    if code < table.len() {
        table[code as int]
    } else {
        "UNKNOWN"@
    }
}

/// The label of program type `t`.
pub open spec fn prog_type_label(t: u32) -> Seq<char> {
    label_in(prog_type_table(), t)
}

/// The label of map type `t`.
pub open spec fn map_type_label(t: u32) -> Seq<char> {
    label_in(map_type_table(), t)
}

/// The label of program type `t`.
pub fn bpf_prog_type_to_str(t: u32) -> (label: &'static str)
    ensures
        label@ == prog_type_label(t),
{
    match t {
        0 => "UNSPEC",
        1 => "SOCKET_FILTER",
        2 => "KPROBE",
        3 => "SCHED_CLS",
        4 => "SCHED_ACT",
        5 => "TRACEPOINT",
        6 => "XDP",
        7 => "PERF_EVENT",
        8 => "CGROUP_SKB",
        9 => "CGROUP_SOCK",
        10 => "LWT_IN",
        11 => "LWT_OUT",
        12 => "LWT_XMIT",
        13 => "SOCK_OPS",
        14 => "SK_SKB",
        15 => "CGROUP_DEVICE",
        16 => "SK_MSG",
        17 => "RAW_TRACEPOINT",
        18 => "CGROUP_SOCK_ADDR",
        19 => "LWT_SEG6LOCAL",
        20 => "LIRC_MODE2",
        21 => "SK_REUSEPORT",
        22 => "FLOW_DISSECTOR",
        23 => "CGROUP_SYSCTL",
        24 => "RAW_TRACEPOINT_WRITABLE",
        25 => "CGROUP_SOCKOPT",
        26 => "TRACING",
        27 => "STRUCT_OPS",
        28 => "EXT",
        29 => "LSM",
        30 => "SK_LOOKUP",
        31 => "SYSCALL",
        32 => "NETFILTER",
        _ => "UNKNOWN",
    }
}

/// The label of map type `t`.
pub fn bpf_map_type_to_str(t: u32) -> (label: &'static str)
    ensures
        label@ == map_type_label(t),
{
    match t {
        0 => "UNSPEC",
        1 => "HASH",
        2 => "ARRAY",
        3 => "PROG_ARRAY",
        4 => "PERF_EVENT_ARRAY",
        5 => "PERCPU_HASH",
        6 => "PERCPU_ARRAY",
        7 => "STACK_TRACE",
        8 => "CGROUP_ARRAY",
        9 => "LRU_HASH",
        10 => "LRU_PERCPU_HASH",
        11 => "LPM_TRIE",
        12 => "ARRAY_OF_MAPS",
        13 => "HASH_OF_MAPS",
        14 => "DEVMAP",
        15 => "SOCKMAP",
        16 => "CPUMAP",
        17 => "XSKMAP",
        18 => "SOCKHASH",
        19 => "CGROUP_STORAGE",
        20 => "REUSEPORT_SOCKARRAY",
        21 => "PERCPU_CGROUP_STORAGE",
        22 => "QUEUE",
        23 => "STACK",
        24 => "SK_STORAGE",
        25 => "DEVMAP_HASH",
        26 => "STRUCT_OPS",
        27 => "RINGBUF",
        28 => "INODE_STORAGE",
        29 => "TASK_STORAGE",
        30 => "BLOOM_FILTER",
        31 => "USER_RINGBUF",
        32 => "CGRP_STORAGE",
        33 => "ARENA",
        34 => "INSN_ARRAY",
        _ => "UNKNOWN",
    }
}

} // verus!
