use eman::detail::{left_column, loaded_at_with, program_detail, Section};
use eman::map_ids::{map_id_buffer, used_map_ids, MapIds};
use eman::records::{MapRecord, ProgramRecord};
use eman::rows::{table_rows, MenuItem, TableRow};

fn name(text: &str) -> [i8; 16] {
    let mut buf = [0i8; 16];
    for (i, b) in text.bytes().enumerate() {
        buf[i] = b as i8;
    }
    buf
}

fn sample() -> ProgramRecord {
    ProgramRecord {
        type_: 6,
        id: 42,
        tag: [0xde, 0xad, 0xbe, 0xef, 0x00, 0x01, 0x02, 0x03],
        jited_prog_len: 120,
        xlated_prog_len: 96,
        jited_prog_insns: 0,
        xlated_prog_insns: 0x7f00,
        load_time: 2_500_000,
        created_by_uid: 1000,
        nr_map_ids: 2,
        map_ids: 0xabc,
        name: name("xdp_pass"),
        ifindex: 3,
        netns_dev: 4,
        netns_ino: 4026531840,
        nr_jited_ksyms: 1,
        nr_jited_func_lens: 1,
        jited_ksyms: 16,
        jited_func_lens: 17,
        btf_id: 77,
        func_info_rec_size: 8,
        func_info: 18,
        nr_func_info: 1,
        nr_line_info: 5,
        line_info: 19,
        jited_line_info: 20,
        nr_jited_line_info: 5,
        line_info_rec_size: 16,
        jited_line_info_rec_size: 8,
        nr_prog_tags: 1,
        prog_tags: 21,
        run_time_ns: 123456,
        run_cnt: 99,
        recursion_misses: 1,
        verified_insns: 12,
        attach_btf_obj_id: 5,
        attach_btf_id: 6,
    }
}

fn all_ones() -> ProgramRecord {
    ProgramRecord {
        type_: u32::MAX,
        id: u32::MAX,
        tag: [0xff; 8],
        jited_prog_len: u32::MAX,
        xlated_prog_len: u32::MAX,
        jited_prog_insns: u64::MAX,
        xlated_prog_insns: u64::MAX,
        load_time: u64::MAX,
        created_by_uid: u32::MAX,
        nr_map_ids: u32::MAX,
        map_ids: u64::MAX,
        name: [-1; 16],
        ifindex: u32::MAX,
        netns_dev: u64::MAX,
        netns_ino: u64::MAX,
        nr_jited_ksyms: u32::MAX,
        nr_jited_func_lens: u32::MAX,
        jited_ksyms: u64::MAX,
        jited_func_lens: u64::MAX,
        btf_id: u32::MAX,
        func_info_rec_size: u32::MAX,
        func_info: u64::MAX,
        nr_func_info: u32::MAX,
        nr_line_info: u32::MAX,
        line_info: u64::MAX,
        jited_line_info: u64::MAX,
        nr_jited_line_info: u32::MAX,
        line_info_rec_size: u32::MAX,
        jited_line_info_rec_size: u32::MAX,
        nr_prog_tags: u32::MAX,
        prog_tags: u64::MAX,
        run_time_ns: u64::MAX,
        run_cnt: u64::MAX,
        recursion_misses: u64::MAX,
        verified_insns: u32::MAX,
        attach_btf_obj_id: u32::MAX,
        attach_btf_id: u32::MAX,
    }
}

fn texts(sections: &[Section]) -> Vec<(String, Vec<(String, String)>)> {
    sections
        .iter()
        .map(|s| {
            let fields =
                s.fields.iter().map(|f| (f.label.to_string(), f.value.clone())).collect();
            (s.title.to_string(), fields)
        })
        .collect()
}

fn section(title: &str, fields: &[(&str, &str)]) -> (String, Vec<(String, String)>) {
    (title.to_string(), fields.iter().map(|(l, v)| (l.to_string(), v.to_string())).collect())
}

#[test]
fn map_row_has_id_name_capacity_and_type() {
    let m = MapRecord { id: 17, name: name("counts"), max_entries: 1024, type_: 2 };
    assert_eq!(m.id(), 17);
    assert_eq!(m.cells(), vec!["17", "counts", "1024", "ARRAY"]);
}

#[test]
fn map_row_of_zeros_and_of_ones() {
    let zeros = MapRecord { id: 0, name: [0; 16], max_entries: 0, type_: 0 };
    assert_eq!(zeros.cells(), vec!["0", "", "0", "UNSPEC"]);
    let ones = MapRecord { id: u32::MAX, name: [-1; 16], max_entries: u32::MAX, type_: u32::MAX };
    assert_eq!(ones.id(), u32::MAX);
    assert_eq!(ones.cells(), vec!["4294967295", "N/A", "4294967295", "UNKNOWN"]);
}

#[test]
fn program_row_has_id_name_tag_and_type() {
    let p = sample();
    assert_eq!(p.id(), 42);
    assert_eq!(p.cells(), vec!["42", "xdp_pass", "deadbeef00010203", "XDP"]);
}

#[test]
fn program_row_of_zeros_and_of_ones() {
    assert_eq!(ProgramRecord::zeroed().cells(), vec!["0", "", "0000000000000000", "UNSPEC"]);
    assert_eq!(all_ones().cells(), vec!["4294967295", "N/A", "ffffffffffffffff", "UNKNOWN"]);
}

#[test]
fn menu_item_row_has_its_two_texts() {
    let item = MenuItem { name: String::from("1. Maps"), description: String::from("Manage") };
    assert_eq!(item.id(), 0);
    assert_eq!(item.cells(), vec!["1. Maps", "Manage"]);
}

#[test]
fn table_has_a_row_for_each_item_in_order() {
    let items = vec![
        MapRecord { id: 2, name: name("a"), max_entries: 1, type_: 1 },
        MapRecord { id: 5, name: name("b"), max_entries: 2, type_: 2 },
        MapRecord { id: 9, name: name("c"), max_entries: 3, type_: 99 },
    ];
    assert_eq!(
        table_rows(&items),
        vec![
            vec!["2", "a", "1", "HASH"],
            vec!["5", "b", "2", "ARRAY"],
            vec!["9", "c", "3", "UNKNOWN"],
        ]
    );
    assert!(table_rows(&Vec::<MapRecord>::new()).is_empty());
}

#[test]
fn zeroed_record_is_all_zero() {
    let z = ProgramRecord::zeroed();
    assert_eq!(z.id, 0);
    assert_eq!(z.type_, 0);
    assert_eq!(z.tag, [0; 8]);
    assert_eq!(z.name, [0; 16]);
    assert_eq!(z.load_time, 0);
    assert_eq!(z.nr_map_ids, 0);
    assert_eq!(z.attach_btf_id, 0);
}

#[test]
fn detail_has_every_field_in_its_section() {
    let sections = program_detail(&sample(), String::from("a time stamp"), &vec![7, 12]);
    assert_eq!(
        texts(&sections),
        vec![
            section(
                "Identity",
                &[
                    ("ID", "42"),
                    ("Type", "6 (XDP)"),
                    ("Name", "xdp_pass"),
                    ("Tag", "deadbeef00010203"),
                ]
            ),
            section(
                "Program Lengths",
                &[
                    ("Xlated Len", "96B"),
                    ("JITed Len", "120B"),
                    ("Xlated Prog", "0x7f00"),
                    ("JITed Prog", "0x0"),
                ]
            ),
            section(
                "Load & Creator",
                &[
                    ("Load Time", "2.50ms"),
                    ("Loaded At", "a time stamp"),
                    ("Created By UID", "1000"),
                ]
            ),
            section(
                "Maps & Namespaces",
                &[
                    ("Nr Map IDs", "2"),
                    ("Map IDs", "[7, 12]"),
                    ("IfIndex", "3"),
                    ("Netns Dev", "0x4"),
                    ("Netns Ino", "4026531840"),
                ]
            ),
            section(
                "JIT Symbols",
                &[
                    ("Nr JITed Ksyms", "1"),
                    ("JITed Ksyms", "0x10"),
                    ("Nr JITed Func Lens", "1"),
                    ("JITed Func Lens", "0x11"),
                ]
            ),
            section(
                "BTF & Func Info",
                &[
                    ("BTF ID", "77"),
                    ("Func Info Rec Size", "8"),
                    ("Nr Func Info", "1"),
                    ("Func Info", "0x12"),
                ]
            ),
            section(
                "Line Info",
                &[
                    ("Nr Line Info", "5"),
                    ("Line Info Rec Size", "16"),
                    ("Line Info", "0x13"),
                    ("Nr JITed Line Info", "5"),
                    ("JITed Line Info Rec Size", "8"),
                    ("JITed Line Info", "0x14"),
                ]
            ),
            section(
                "Tags & Stats",
                &[
                    ("Nr Prog Tags", "1"),
                    ("Prog Tags", "0x15"),
                    ("Run Time (ns)", "123456"),
                    ("Run Count", "99"),
                    ("Recursion Misses", "1"),
                    ("Verified Insns", "12"),
                    ("Attach BTF Obj ID", "5"),
                    ("Attach BTF ID", "6"),
                ]
            ),
        ]
    );
}

#[test]
fn detail_of_a_record_of_zeros() {
    let sections = program_detail(&ProgramRecord::zeroed(), String::from("t"), &vec![]);
    let all = texts(&sections);
    assert_eq!(all.len(), 8);
    assert_eq!(all.iter().map(|s| s.1.len()).sum::<usize>(), 38);
    assert_eq!(
        all[0],
        section(
            "Identity",
            &[("ID", "0"), ("Type", "0 (UNSPEC)"), ("Name", ""), ("Tag", "0000000000000000")]
        )
    );
    assert_eq!(
        all[2],
        section("Load & Creator", &[("Load Time", "0ns"), ("Loaded At", "t"), ("Created By UID", "0")])
    );
    assert_eq!(all[3].1[1], (String::from("Map IDs"), String::from("[]")));
    assert_eq!(all[1].1[3], (String::from("JITed Prog"), String::from("0x0")));
}

#[test]
fn detail_of_a_record_of_ones() {
    let sections = program_detail(&all_ones(), String::from("t"), &vec![u32::MAX]);
    let all = texts(&sections);
    assert_eq!(all.len(), 8);
    assert_eq!(all.iter().map(|s| s.1.len()).sum::<usize>(), 38);
    assert_eq!(
        all[0],
        section(
            "Identity",
            &[
                ("ID", "4294967295"),
                ("Type", "4294967295 (UNKNOWN)"),
                ("Name", "N/A"),
                ("Tag", "ffffffffffffffff"),
            ]
        )
    );
    assert_eq!(all[2].1[0], (String::from("Load Time"), String::from("18446744073.71s")));
    assert_eq!(all[3].1[1], (String::from("Map IDs"), String::from("[4294967295]")));
    assert_eq!(all[7].1[3], (String::from("Run Count"), String::from("18446744073709551615")));
    assert_eq!(all[7].1[1], (String::from("Prog Tags"), String::from("0xffffffffffffffff")));
}

#[test]
fn detail_with_the_time_stamp_of_the_load_time() {
    let stamp = loaded_at_with(sample().load_time, 7_200);
    assert_eq!(stamp, "1970-01-01T02:00:00.002500+02:00");
    let shown = texts(&program_detail(&sample(), stamp, &vec![7, 12]));
    assert_eq!(
        shown[2],
        section(
            "Load & Creator",
            &[
                ("Load Time", "2.50ms"),
                ("Loaded At", "1970-01-01T02:00:00.002500+02:00"),
                ("Created By UID", "1000"),
            ]
        )
    );
    let late = loaded_at_with(u64::MAX, 0);
    let shown = texts(&program_detail(&all_ones(), late, &vec![]));
    assert_eq!(shown[2].1[1].1, "2554-07-21T23:34:33.709551615+00:00");
}

#[test]
fn buffer_has_room_for_the_maps_that_the_record_names() {
    let mut p = ProgramRecord::zeroed();
    assert!(map_id_buffer(&p).is_empty());
    p.nr_map_ids = 3;
    assert_eq!(map_id_buffer(&p), vec![0, 0, 0]);
}

#[test]
fn map_ids_are_what_the_kernel_reported() {
    assert_eq!(used_map_ids(Some(MapIds { ids: vec![4, 5, 6], count: 3 })), vec![4, 5, 6]);
    assert_eq!(used_map_ids(Some(MapIds { ids: vec![4, 5, 0], count: 2 })), vec![4, 5]);
    assert_eq!(used_map_ids(Some(MapIds { ids: vec![4, 5, 6], count: 0 })), Vec::<u32>::new());
    assert_eq!(used_map_ids(Some(MapIds { ids: vec![4, 5, 6], count: 9 })), vec![4, 5, 6]);
    assert_eq!(used_map_ids(Some(MapIds { ids: vec![], count: 2 })), Vec::<u32>::new());
}

#[test]
fn a_program_that_could_not_be_read_has_no_map_ids() {
    assert_eq!(used_map_ids(None), Vec::<u32>::new());
}

#[test]
fn left_column_takes_the_odd_section() {
    assert_eq!(left_column(0), 0);
    assert_eq!(left_column(1), 1);
    assert_eq!(left_column(7), 4);
    assert_eq!(left_column(8), 4);
    assert_eq!(left_column(usize::MAX), usize::MAX / 2 + 1);
}
