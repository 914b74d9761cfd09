//! The detail view of one program: every field of its record as text, grouped
//! into titled sections in the order in which they are shown.

use crate::format::{duration_text, format_ns, format_tag, SECOND};
use crate::labels::{bpf_prog_type_to_str, prog_type_label};
use crate::names::{name_string, name_text};
use crate::records::ProgramRecord;
use crate::text::{
    decimal, decimal_string, decimal_with_suffix, hex_literal, hex_string, id_list, push_decimal,
    push_id_list, tag_hex,
};
use vstd::prelude::*;
use vstd::string::StringExecFns;

verus! {

/// One line of a section: what the value is, and the value as text.
#[derive(Debug)]
pub struct Field {
    pub label: &'static str,
    pub value: String,
}

/// A titled group of fields.
#[derive(Debug)]
pub struct Section {
    pub title: &'static str,
    pub fields: Vec<Field>,
}

/// A field as its label and its value.
pub type FieldText = (Seq<char>, Seq<char>);

/// A section as its title and its fields.
pub type SectionText = (Seq<char>, Seq<FieldText>);

impl View for Field {
    type V = FieldText;

    open spec fn view(&self) -> FieldText {
        (self.label@, self.value@)
    }
}

impl View for Section {
    type V = SectionText;

    open spec fn view(&self) -> SectionText {
        (self.title@, field_texts(self.fields@))
    }
}

/// The fields of `fields` as text, in their order.
pub open spec fn field_texts(fields: Seq<Field>) -> Seq<FieldText> {
    fields.map_values(|f: Field| f@)
}

/// The sections of `sections` as text, in their order.
pub open spec fn section_texts(sections: Seq<Section>) -> Seq<SectionText> {
    sections.map_values(|s: Section| s@)
}

/// A type code with its label in brackets behind it.
pub open spec fn type_text(code: u32) -> Seq<char> {
    decimal(code as nat) + " ("@ + prog_type_label(code) + ")"@
}

/// What is shown for the time of loading: the time stamp, or a placeholder
/// where the load time has none.
pub open spec fn loaded_at_text(stamp: Option<Seq<char>>) -> Seq<char> {
    match stamp {
        Some(text) => text,
        None => "Invalid timestamp"@,
    }
}

/// The fields of the section `Identity`.
pub open spec fn identity_fields(p: ProgramRecord) -> Seq<FieldText> {
    seq![
        ("ID"@, decimal(p.id as nat)),
        ("Type"@, type_text(p.type_)),
        ("Name"@, name_text(p.name@)),
        ("Tag"@, tag_hex(p.tag@)),
    ]
}

/// The fields of the section `Program Lengths`.
pub open spec fn lengths_fields(p: ProgramRecord) -> Seq<FieldText> {
    seq![
        ("Xlated Len"@, decimal(p.xlated_prog_len as nat) + "B"@),
        ("JITed Len"@, decimal(p.jited_prog_len as nat) + "B"@),
        ("Xlated Prog"@, hex_literal(p.xlated_prog_insns as nat)),
        ("JITed Prog"@, hex_literal(p.jited_prog_insns as nat)),
    ]
}

/// The fields of the section `Load & Creator`.
pub open spec fn load_fields(p: ProgramRecord, loaded_at: Seq<char>) -> Seq<FieldText> {
    seq![
        ("Load Time"@, duration_text(p.load_time)),
        ("Loaded At"@, loaded_at),
        ("Created By UID"@, decimal(p.created_by_uid as nat)),
    ]
}

/// The fields of the section `Maps & Namespaces`.
pub open spec fn maps_fields(p: ProgramRecord, map_ids: Seq<u32>) -> Seq<FieldText> {
    seq![
        ("Nr Map IDs"@, decimal(p.nr_map_ids as nat)),
        ("Map IDs"@, id_list(map_ids)),
        ("IfIndex"@, decimal(p.ifindex as nat)),
        ("Netns Dev"@, hex_literal(p.netns_dev as nat)),
        ("Netns Ino"@, decimal(p.netns_ino as nat)),
    ]
}

/// The fields of the section `JIT Symbols`.
pub open spec fn symbols_fields(p: ProgramRecord) -> Seq<FieldText> {
    seq![
        ("Nr JITed Ksyms"@, decimal(p.nr_jited_ksyms as nat)),
        ("JITed Ksyms"@, hex_literal(p.jited_ksyms as nat)),
        ("Nr JITed Func Lens"@, decimal(p.nr_jited_func_lens as nat)),
        ("JITed Func Lens"@, hex_literal(p.jited_func_lens as nat)),
    ]
}

/// The fields of the section `BTF & Func Info`.
pub open spec fn btf_fields(p: ProgramRecord) -> Seq<FieldText> {
    seq![
        ("BTF ID"@, decimal(p.btf_id as nat)),
        ("Func Info Rec Size"@, decimal(p.func_info_rec_size as nat)),
        ("Nr Func Info"@, decimal(p.nr_func_info as nat)),
        ("Func Info"@, hex_literal(p.func_info as nat)),
    ]
}

/// The fields of the section `Line Info`.
pub open spec fn lines_fields(p: ProgramRecord) -> Seq<FieldText> {
    seq![
        ("Nr Line Info"@, decimal(p.nr_line_info as nat)),
        ("Line Info Rec Size"@, decimal(p.line_info_rec_size as nat)),
        ("Line Info"@, hex_literal(p.line_info as nat)),
        ("Nr JITed Line Info"@, decimal(p.nr_jited_line_info as nat)),
        ("JITed Line Info Rec Size"@, decimal(p.jited_line_info_rec_size as nat)),
        ("JITed Line Info"@, hex_literal(p.jited_line_info as nat)),
    ]
}

/// The fields of the section `Tags & Stats`.
pub open spec fn stats_fields(p: ProgramRecord) -> Seq<FieldText> {
    seq![
        ("Nr Prog Tags"@, decimal(p.nr_prog_tags as nat)),
        ("Prog Tags"@, hex_literal(p.prog_tags as nat)),
        ("Run Time (ns)"@, decimal(p.run_time_ns as nat)),
        ("Run Count"@, decimal(p.run_cnt as nat)),
        ("Recursion Misses"@, decimal(p.recursion_misses as nat)),
        ("Verified Insns"@, decimal(p.verified_insns as nat)),
        ("Attach BTF Obj ID"@, decimal(p.attach_btf_obj_id as nat)),
        ("Attach BTF ID"@, decimal(p.attach_btf_id as nat)),
    ]
}

/// The detail view of `p`: eight sections in their fixed order. `loaded_at` is
/// the text for the time of loading and `map_ids` the ids of the maps that the
/// program uses.
pub open spec fn detail_text(p: ProgramRecord, loaded_at: Seq<char>, map_ids: Seq<u32>) -> Seq<
    SectionText,
> {
    seq![
        ("Identity"@, identity_fields(p)),
        ("Program Lengths"@, lengths_fields(p)),
        ("Load & Creator"@, load_fields(p, loaded_at)),
        ("Maps & Namespaces"@, maps_fields(p, map_ids)),
        ("JIT Symbols"@, symbols_fields(p)),
        ("BTF & Func Info"@, btf_fields(p)),
        ("Line Info"@, lines_fields(p)),
        ("Tags & Stats"@, stats_fields(p)),
    ]
}

/// The titles of `sections`, each with the labels of its fields.
pub open spec fn labels_of(sections: Seq<SectionText>) -> Seq<(Seq<char>, Seq<Seq<char>>)> {
    sections.map_values(|s: SectionText| (s.0, s.1.map_values(|f: FieldText| f.0)))
}

/// Every record has a detail view, and every detail view has the same
/// sections with the same fields in the same order: only the values differ
/// from one record to another.
pub proof fn law_detail_has_every_field(
    p: ProgramRecord,
    loaded_at: Seq<char>,
    map_ids: Seq<u32>,
    q: ProgramRecord,
    other_loaded_at: Seq<char>,
    other_map_ids: Seq<u32>,
)
    ensures
        detail_text(p, loaded_at, map_ids).len() == 8,
        labels_of(detail_text(p, loaded_at, map_ids)) == labels_of(
            detail_text(q, other_loaded_at, other_map_ids),
        ),
{
    let a = detail_text(p, loaded_at, map_ids);
    let b = detail_text(q, other_loaded_at, other_map_ids);
    assert forall|i: int| 0 <= i < 8 implies labels_of(a)[i] == labels_of(b)[i] by {
        assert(a[i].1.map_values(|f: FieldText| f.0) =~= b[i].1.map_values(|f: FieldText| f.0));
    }
    assert(labels_of(a) =~= labels_of(b));
}

fn type_string(code: u32) -> (s: String)
    ensures
        s@ == type_text(code),
{
    let mut s = String::new();
    push_decimal(&mut s, code as u64);
    s.append(" (");
    s.append(bpf_prog_type_to_str(code));
    s.append(")");
    s
}

fn id_list_string(ids: &Vec<u32>) -> (s: String)
    ensures
        s@ == id_list(ids@),
{
    let mut s = String::new();
    push_id_list(&mut s, ids);
    s
}

fn field(label: &'static str, value: String) -> (f: Field)
    ensures
        f@ == (label@, value@),
{
    Field { label, value }
}

fn section(title: &'static str, fields: Vec<Field>) -> (s: Section)
    ensures
        s@ == (title@, field_texts(fields@)),
{
    Section { title, fields }
}

fn identity_section(p: &ProgramRecord) -> (s: Section)
    ensures
        s@ == ("Identity"@, identity_fields(*p)),
{
    let mut fields: Vec<Field> = Vec::new();
    fields.push(field("ID", decimal_string(p.id as u64)));
    fields.push(field("Type", type_string(p.type_)));
    fields.push(field("Name", name_string(p.name)));
    fields.push(field("Tag", format_tag(p.tag)));
    proof {
        assert(field_texts(fields@) =~= identity_fields(*p));
    }
    section("Identity", fields)
}

fn lengths_section(p: &ProgramRecord) -> (s: Section)
    ensures
        s@ == ("Program Lengths"@, lengths_fields(*p)),
{
    let mut fields: Vec<Field> = Vec::new();
    fields.push(field("Xlated Len", decimal_with_suffix(p.xlated_prog_len as u64, "B")));
    fields.push(field("JITed Len", decimal_with_suffix(p.jited_prog_len as u64, "B")));
    fields.push(field("Xlated Prog", hex_string(p.xlated_prog_insns)));
    fields.push(field("JITed Prog", hex_string(p.jited_prog_insns)));
    proof {
        assert(field_texts(fields@) =~= lengths_fields(*p));
    }
    section("Program Lengths", fields)
}

fn load_section(p: &ProgramRecord, loaded_at: String) -> (s: Section)
    ensures
        s@ == ("Load & Creator"@, load_fields(*p, loaded_at@)),
{
    let mut fields: Vec<Field> = Vec::new();
    fields.push(field("Load Time", format_ns(p.load_time)));
    fields.push(field("Loaded At", loaded_at));
    fields.push(field("Created By UID", decimal_string(p.created_by_uid as u64)));
    proof {
        assert(field_texts(fields@) =~= load_fields(*p, loaded_at@));
    }
    section("Load & Creator", fields)
}

fn maps_section(p: &ProgramRecord, map_ids: &Vec<u32>) -> (s: Section)
    ensures
        s@ == ("Maps & Namespaces"@, maps_fields(*p, map_ids@)),
{
    let mut fields: Vec<Field> = Vec::new();
    fields.push(field("Nr Map IDs", decimal_string(p.nr_map_ids as u64)));
    fields.push(field("Map IDs", id_list_string(map_ids)));
    fields.push(field("IfIndex", decimal_string(p.ifindex as u64)));
    fields.push(field("Netns Dev", hex_string(p.netns_dev)));
    fields.push(field("Netns Ino", decimal_string(p.netns_ino)));
    proof {
        assert(field_texts(fields@) =~= maps_fields(*p, map_ids@));
    }
    section("Maps & Namespaces", fields)
}

fn symbols_section(p: &ProgramRecord) -> (s: Section)
    ensures
        s@ == ("JIT Symbols"@, symbols_fields(*p)),
{
    let mut fields: Vec<Field> = Vec::new();
    fields.push(field("Nr JITed Ksyms", decimal_string(p.nr_jited_ksyms as u64)));
    fields.push(field("JITed Ksyms", hex_string(p.jited_ksyms)));
    fields.push(field("Nr JITed Func Lens", decimal_string(p.nr_jited_func_lens as u64)));
    fields.push(field("JITed Func Lens", hex_string(p.jited_func_lens)));
    proof {
        assert(field_texts(fields@) =~= symbols_fields(*p));
    }
    section("JIT Symbols", fields)
}

fn btf_section(p: &ProgramRecord) -> (s: Section)
    ensures
        s@ == ("BTF & Func Info"@, btf_fields(*p)),
{
    let mut fields: Vec<Field> = Vec::new();
    fields.push(field("BTF ID", decimal_string(p.btf_id as u64)));
    fields.push(field("Func Info Rec Size", decimal_string(p.func_info_rec_size as u64)));
    fields.push(field("Nr Func Info", decimal_string(p.nr_func_info as u64)));
    fields.push(field("Func Info", hex_string(p.func_info)));
    proof {
        assert(field_texts(fields@) =~= btf_fields(*p));
    }
    section("BTF & Func Info", fields)
}

fn lines_section(p: &ProgramRecord) -> (s: Section)
    ensures
        s@ == ("Line Info"@, lines_fields(*p)),
{
    let mut fields: Vec<Field> = Vec::new();
    fields.push(field("Nr Line Info", decimal_string(p.nr_line_info as u64)));
    fields.push(field("Line Info Rec Size", decimal_string(p.line_info_rec_size as u64)));
    fields.push(field("Line Info", hex_string(p.line_info)));
    fields.push(field("Nr JITed Line Info", decimal_string(p.nr_jited_line_info as u64)));
    fields.push(
        field("JITed Line Info Rec Size", decimal_string(p.jited_line_info_rec_size as u64)),
    );
    fields.push(field("JITed Line Info", hex_string(p.jited_line_info)));
    proof {
        assert(field_texts(fields@) =~= lines_fields(*p));
    }
    section("Line Info", fields)
}

fn stats_section(p: &ProgramRecord) -> (s: Section)
    ensures
        s@ == ("Tags & Stats"@, stats_fields(*p)),
{
    let mut fields: Vec<Field> = Vec::new();
    fields.push(field("Nr Prog Tags", decimal_string(p.nr_prog_tags as u64)));
    fields.push(field("Prog Tags", hex_string(p.prog_tags)));
    fields.push(field("Run Time (ns)", decimal_string(p.run_time_ns)));
    fields.push(field("Run Count", decimal_string(p.run_cnt)));
    fields.push(field("Recursion Misses", decimal_string(p.recursion_misses)));
    fields.push(field("Verified Insns", decimal_string(p.verified_insns as u64)));
    fields.push(field("Attach BTF Obj ID", decimal_string(p.attach_btf_obj_id as u64)));
    fields.push(field("Attach BTF ID", decimal_string(p.attach_btf_id as u64)));
    proof {
        assert(field_texts(fields@) =~= stats_fields(*p));
    }
    section("Tags & Stats", fields)
}

/// What is shown for the time of loading, given the time stamp that the
/// conversion of the load time gave, if it gave one.
pub fn timestamp_text(stamp: Option<String>) -> (s: String)
    ensures
        s@ == loaded_at_text(
            match stamp {
                Some(text) => Some(text@),
                None => None,
            },
        ),
{
    match stamp {
        Some(text) => text,
        None => "Invalid timestamp".to_owned(),
    }
}

/// The detail view of `p`, with `loaded_at` as the text for the time of
/// loading and `map_ids` as the maps that the program uses.
pub fn program_detail(p: &ProgramRecord, loaded_at: String, map_ids: &Vec<u32>) -> (sections: Vec<
    Section,
>)
    ensures
        section_texts(sections@) == detail_text(*p, loaded_at@, map_ids@),
{
    let mut sections: Vec<Section> = Vec::new();
    sections.push(identity_section(p));
    sections.push(lengths_section(p));
    sections.push(load_section(p, loaded_at));
    sections.push(maps_section(p, map_ids));
    sections.push(symbols_section(p));
    sections.push(btf_section(p));
    sections.push(lines_section(p));
    sections.push(stats_section(p));
    proof {
        assert(section_texts(sections@) =~= detail_text(*p, loaded_at@, map_ids@));
    }
    sections
}

/// How many of `count` sections stand in the left of the two columns: half of
/// them, and the odd one.
pub fn left_column(count: usize) -> (left: usize)
    ensures
        left == (count + 1) / 2,
{
    count / 2 + count % 2
}

/// The load time as whole seconds and the nanoseconds beyond them.
pub fn split_load_time(load_time: u64) -> (parts: (i64, u32))
    ensures
        parts.0 == load_time / SECOND,
        parts.1 == load_time % SECOND,
{
    ((load_time / SECOND) as i64, (load_time % SECOND) as u32)
}

/// `offset` is a difference between a local time and UTC, in seconds: less
/// than a day either way.
pub open spec fn is_utc_offset(offset: i32) -> bool {
    -86_400 < offset < 86_400
}

/// What `chrono::DateTime::to_rfc3339` writes for the instant `secs` seconds
/// and `nsecs` nanoseconds after the Unix epoch in a time zone that is
/// `offset` seconds ahead of UTC: the date and the time of day there, and the
/// offset.
pub uninterp spec fn rfc3339_text(secs: i64, nsecs: u32, offset: i32) -> Seq<char>;

/// The time stamp of the load time `load_time` in a time zone `offset` seconds
/// ahead of UTC; the placeholder where `offset` is no offset of a time zone.
pub open spec fn stamp_at(load_time: u64, offset: i32) -> Seq<char> {
    if is_utc_offset(offset) {
        rfc3339_text((load_time / SECOND) as i64, (load_time % SECOND) as u32, offset)
    } else {
        loaded_at_text(None)
    }
}

/// `chrono::FixedOffset::east_opt`, `chrono::DateTime::from_timestamp`,
/// `DateTime::with_timezone` and `DateTime::to_rfc3339`: the instant `secs`
/// seconds and `nsecs` nanoseconds after the Unix epoch as RFC 3339 text in a
/// time zone `offset` seconds ahead of UTC. The inputs are the seconds and
/// nanoseconds of a load time and an offset of less than a day; chrono has an
/// instant and a time zone for each of them.
#[verifier::external_body]
fn rfc3339_at(secs: i64, nsecs: u32, offset: i32) -> (stamp: Option<String>)
    requires
        0 <= secs <= u64::MAX / SECOND,
        nsecs < SECOND,
        is_utc_offset(offset),
    ensures
        stamp is Some,
        stamp matches Some(text) ==> text@ == rfc3339_text(secs, nsecs, offset),
{
    match chrono::FixedOffset::east_opt(offset) {
        Some(east) => match chrono::DateTime::<chrono::Utc>::from_timestamp(secs, nsecs) {
            Some(utc) => Some(utc.with_timezone(&east).to_rfc3339()),
            None => None,
        },
        None => None,
    }
}

/// What is shown for the time of loading of a program loaded at `load_time`,
/// in a time zone `offset` seconds ahead of UTC: the time stamp, or the
/// placeholder where `offset` is a day or more.
pub fn loaded_at_with(load_time: u64, offset: i32) -> (s: String)
    ensures
        s@ == stamp_at(load_time, offset),
{
    if offset <= -86_400 || offset >= 86_400 {
        return timestamp_text(None);
    }
    let (secs, nsecs) = split_load_time(load_time);
    timestamp_text(rfc3339_at(secs, nsecs, offset))
}

} // verus!
