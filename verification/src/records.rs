//! Descriptor records: what the kernel reports of one map or one program at
//! the moment it is asked. A record is a snapshot; a list holds it until the
//! next refresh replaces the list.

use vstd::prelude::*;

verus! {

/// The descriptor of a map, as far as the map table shows it.
#[derive(Clone, Copy, Debug)]
pub struct MapRecord {
    pub id: u32,
    pub name: [i8; 16],
    pub max_entries: u32,
    pub type_: u32,
}

/// The descriptor of a program.
#[derive(Clone, Copy, Debug)]
pub struct ProgramRecord {
    pub type_: u32,
    pub id: u32,
    pub tag: [u8; 8],
    pub jited_prog_len: u32,
    pub xlated_prog_len: u32,
    pub jited_prog_insns: u64,
    pub xlated_prog_insns: u64,
    pub load_time: u64,
    pub created_by_uid: u32,
    pub nr_map_ids: u32,
    pub map_ids: u64,
    pub name: [i8; 16],
    pub ifindex: u32,
    pub netns_dev: u64,
    pub netns_ino: u64,
    pub nr_jited_ksyms: u32,
    pub nr_jited_func_lens: u32,
    pub jited_ksyms: u64,
    pub jited_func_lens: u64,
    pub btf_id: u32,
    pub func_info_rec_size: u32,
    pub func_info: u64,
    pub nr_func_info: u32,
    pub nr_line_info: u32,
    pub line_info: u64,
    pub jited_line_info: u64,
    pub nr_jited_line_info: u32,
    pub line_info_rec_size: u32,
    pub jited_line_info_rec_size: u32,
    pub nr_prog_tags: u32,
    pub prog_tags: u64,
    pub run_time_ns: u64,
    pub run_cnt: u64,
    pub recursion_misses: u64,
    pub verified_insns: u32,
    pub attach_btf_obj_id: u32,
    pub attach_btf_id: u32,
}

impl ProgramRecord {
    /// Every field of the record is zero.
    pub open spec fn is_blank(&self) -> bool {
        &&& self.type_ == 0
        &&& self.id == 0
        &&& self.tag@ =~= Seq::new(8, |i: int| 0u8)
        &&& self.jited_prog_len == 0
        &&& self.xlated_prog_len == 0
        &&& self.jited_prog_insns == 0
        &&& self.xlated_prog_insns == 0
        &&& self.load_time == 0
        &&& self.created_by_uid == 0
        &&& self.nr_map_ids == 0
        &&& self.map_ids == 0
        &&& self.name@ =~= Seq::new(16, |i: int| 0i8)
        &&& self.ifindex == 0
        &&& self.netns_dev == 0
        &&& self.netns_ino == 0
        &&& self.nr_jited_ksyms == 0
        &&& self.nr_jited_func_lens == 0
        &&& self.jited_ksyms == 0
        &&& self.jited_func_lens == 0
        &&& self.btf_id == 0
        &&& self.func_info_rec_size == 0
        &&& self.func_info == 0
        &&& self.nr_func_info == 0
        &&& self.nr_line_info == 0
        &&& self.line_info == 0
        &&& self.jited_line_info == 0
        &&& self.nr_jited_line_info == 0
        &&& self.line_info_rec_size == 0
        &&& self.jited_line_info_rec_size == 0
        &&& self.nr_prog_tags == 0
        &&& self.prog_tags == 0
        &&& self.run_time_ns == 0
        &&& self.run_cnt == 0
        &&& self.recursion_misses == 0
        &&& self.verified_insns == 0
        &&& self.attach_btf_obj_id == 0
        &&& self.attach_btf_id == 0
    }

    /// The record whose every field is zero: the buffer that a fetch starts
    /// from.
    pub fn zeroed() -> (r: ProgramRecord)
        ensures
            r.is_blank(),
    {
        ProgramRecord {
            type_: 0,
            id: 0,
            tag: [0u8; 8],
            jited_prog_len: 0,
            xlated_prog_len: 0,
            jited_prog_insns: 0,
            xlated_prog_insns: 0,
            load_time: 0,
            created_by_uid: 0,
            nr_map_ids: 0,
            map_ids: 0,
            name: [0i8; 16],
            ifindex: 0,
            netns_dev: 0,
            netns_ino: 0,
            nr_jited_ksyms: 0,
            nr_jited_func_lens: 0,
            jited_ksyms: 0,
            jited_func_lens: 0,
            btf_id: 0,
            func_info_rec_size: 0,
            func_info: 0,
            nr_func_info: 0,
            nr_line_info: 0,
            line_info: 0,
            jited_line_info: 0,
            nr_jited_line_info: 0,
            line_info_rec_size: 0,
            jited_line_info_rec_size: 0,
            nr_prog_tags: 0,
            prog_tags: 0,
            run_time_ns: 0,
            run_cnt: 0,
            recursion_misses: 0,
            verified_insns: 0,
            attach_btf_obj_id: 0,
            attach_btf_id: 0,
        }
    }
}

} // verus!
