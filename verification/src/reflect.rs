//! Parser for SPIR-V reflection listings.
//!
//! The shader compiler writes, for each shader stage, a reflection listing
//! naming every uniform, uniform block and vertex attribute together with
//! numeric properties. The listing is line-oriented: marker lines such as
//! `Uniform reflection:` switch the section, and every other line of the
//! form `name: <field>, <field>, ...` carries fields of the form
//! ` <key> <value>`, so that splitting a field on spaces puts the key second
//! and the value third. A value of `-1` marks a property the compiler could
//! not assign, and is skipped. The parser collects, per section, the byte
//! offsets and binding points of uniforms and the sizes and binding points
//! of uniform blocks; the resource tables are updated from them before any
//! frame renders.
//!
//! Every line ends with a carriage return in the listings the compiler
//! writes, so the last byte of each line is dropped before it is read.

use vstd::prelude::*;

use crate::bytesutil::ascii_bytes;
use crate::bytesutil::bytes_eq;
use crate::bytesutil::contains_seq;
use crate::bytesutil::parse_i32_or_zero;
use crate::bytesutil::parse_u32_or_zero;
use crate::bytesutil::spec_contains_seq;
use crate::bytesutil::spec_parse_i32_or_zero;
use crate::bytesutil::spec_parse_u32_or_zero;
use crate::bytesutil::spec_split_byte;
use crate::bytesutil::split_byte;
use crate::bytesutil::subvec;

verus! {

/// The section markers and field keys of a reflection listing.
pub open spec fn marker_uniforms() -> Seq<u8> {
    ascii_bytes("Uniform reflection:"@)
}

pub open spec fn marker_blocks() -> Seq<u8> {
    ascii_bytes("Uniform block reflection:"@)
}

pub open spec fn marker_attributes() -> Seq<u8> {
    ascii_bytes("Vertex attribute reflection:"@)
}

pub open spec fn key_offset() -> Seq<u8> {
    ascii_bytes("offset"@)
}

pub open spec fn key_binding() -> Seq<u8> {
    ascii_bytes("binding"@)
}

pub open spec fn key_size() -> Seq<u8> {
    ascii_bytes("size"@)
}

pub open spec fn unassigned() -> Seq<u8> {
    ascii_bytes("-1"@)
}

/// What a reflection listing denotes: per-name offsets and binding points of
/// uniforms, and sizes and binding points of uniform blocks. A name recorded
/// twice resolves to its latest entry.
pub struct ReflectionData {
    /// Byte offset of each uniform inside its block.
    pub offsets: Vec<(Vec<u8>, usize)>,
    /// Data size of each uniform block.
    pub block_sizes: Vec<(Vec<u8>, usize)>,
    /// Binding point of each uniform block.
    pub block_bindings: Vec<(Vec<u8>, u32)>,
    /// Binding point of each opaque uniform.
    pub uniform_bindings: Vec<(Vec<u8>, u32)>,
}

/// The parse state: the active section and the entries collected so far.
pub struct ReflState {
    /// The active section: none yet, uniforms, uniform blocks, or vertex
    /// attributes.
    pub mode: int,
    pub offsets: Seq<(Seq<u8>, usize)>,
    pub block_sizes: Seq<(Seq<u8>, usize)>,
    pub block_bindings: Seq<(Seq<u8>, u32)>,
    pub uniform_bindings: Seq<(Seq<u8>, u32)>,
}

/// The parse state before any line is read.
pub open spec fn spec_initial_state() -> ReflState {
    ReflState {
        mode: 0,
        offsets: Seq::empty(),
        block_sizes: Seq::empty(),
        block_bindings: Seq::empty(),
        uniform_bindings: Seq::empty(),
    }
}

/// The parse state as the exec parser holds it.
pub open spec fn spec_view_state(mode: u8, d: ReflectionData) -> ReflState {
    ReflState {
        mode: mode as int,
        offsets: d.offsets.deep_view(),
        block_sizes: d.block_sizes.deep_view(),
        block_bindings: d.block_bindings.deep_view(),
        uniform_bindings: d.uniform_bindings.deep_view(),
    }
}

/// Read one ` <key> <value>` field of a `name: ...` line: record the value
/// under the line's name when the active section and the key call for it and
/// the value is assigned. A field without key and value third and second is
/// ignored.
pub open spec fn spec_field_step(st: ReflState, name: Seq<u8>, field: Seq<u8>) -> ReflState {
    let bits = spec_split_byte(field, 32);
    if bits.len() >= 3 {
        let key = bits[1];
        let val = bits[2];
        if st.mode == 1 && key == key_offset() && val != unassigned() {
            let v = spec_parse_i32_or_zero(val);
            if v >= 0 {
                ReflState { offsets: st.offsets.push((name, v as usize)), ..st }
            } else {
                st
            }
        } else if st.mode == 1 && key == key_binding() && val != unassigned() {
            ReflState {
                uniform_bindings: st.uniform_bindings.push((name, spec_parse_u32_or_zero(val))),
                ..st
            }
        } else if st.mode == 2 && key == key_size() && val != unassigned() {
            ReflState {
                block_sizes: st.block_sizes.push((name, spec_parse_u32_or_zero(val) as usize)),
                ..st
            }
        } else if st.mode == 2 && key == key_binding() && val != unassigned() {
            ReflState {
                block_bindings: st.block_bindings.push((name, spec_parse_u32_or_zero(val))),
                ..st
            }
        } else {
            st
        }
    } else {
        st
    }
}

/// The parse state after the first `k` fields of a line.
pub open spec fn spec_fields_upto(
    st: ReflState,
    name: Seq<u8>,
    fields: Seq<Seq<u8>>,
    k: int,
) -> ReflState
    decreases k,
{
    if k <= 0 {
        st
    } else {
        spec_field_step(spec_fields_upto(st, name, fields, k - 1), name, fields[k - 1])
    }
}

/// Read one line: its trailing carriage return is dropped; a marker line
/// switches the section; a `name: fields` line records its fields; anything
/// else changes nothing.
pub open spec fn spec_line_step(st: ReflState, rawline: Seq<u8>) -> ReflState {
    let line = if rawline.len() > 0 {
        rawline.drop_last()
    } else {
        rawline
    };
    if spec_contains_seq(line, marker_uniforms()) {
        ReflState { mode: 1, ..st }
    } else if spec_contains_seq(line, marker_blocks()) {
        ReflState { mode: 2, ..st }
    } else if spec_contains_seq(line, marker_attributes()) {
        ReflState { mode: 3, ..st }
    } else {
        let segs = spec_split_byte(line, 58);
        if segs.len() >= 2 {
            let fields = spec_split_byte(segs[1], 44);
            spec_fields_upto(st, segs[0], fields, fields.len() as int)
        } else {
            st
        }
    }
}

/// The parse state after the first `k` lines.
pub open spec fn spec_lines_upto(lines: Seq<Seq<u8>>, k: int) -> ReflState
    decreases k,
{
    if k <= 0 {
        spec_initial_state()
    } else {
        spec_line_step(spec_lines_upto(lines, k - 1), lines[k - 1])
    }
}

/// What a whole reflection listing denotes.
pub open spec fn spec_parse_reflection(contents: Seq<u8>) -> ReflState {
    let lines = spec_split_byte(contents, 10);
    spec_lines_upto(lines, lines.len() as int)
}

/// Parse a reflection listing into its per-name offset, size and binding
/// tables.
pub fn parse_reflection(contents: &Vec<u8>) -> (r: ReflectionData)
    ensures
        spec_view_state(0, r) == (ReflState { mode: 0, ..spec_parse_reflection(contents@) }),
{
    let m_uniforms: &str = "Uniform reflection:";
    let m_blocks: &str = "Uniform block reflection:";
    let m_attributes: &str = "Vertex attribute reflection:";
    let k_offset: &str = "offset";
    let k_binding: &str = "binding";
    let k_size: &str = "size";
    let k_unassigned: &str = "-1";
    proof {
        reveal_strlit("Uniform reflection:");
        reveal_strlit("Uniform block reflection:");
        reveal_strlit("Vertex attribute reflection:");
        reveal_strlit("offset");
        reveal_strlit("binding");
        reveal_strlit("size");
        reveal_strlit("-1");
        assert(m_uniforms.is_ascii());
        assert(m_blocks.is_ascii());
        assert(m_attributes.is_ascii());
        assert(k_offset.is_ascii());
        assert(k_binding.is_ascii());
        assert(k_size.is_ascii());
        assert(k_unassigned.is_ascii());
    }
    let b_uniforms = m_uniforms.as_bytes();
    let b_blocks = m_blocks.as_bytes();
    let b_attributes = m_attributes.as_bytes();
    let b_offset = k_offset.as_bytes();
    let b_binding = k_binding.as_bytes();
    let b_size = k_size.as_bytes();
    let b_unassigned = k_unassigned.as_bytes();
    proof {
        assert(b_uniforms@ =~= marker_uniforms());
        assert(b_blocks@ =~= marker_blocks());
        assert(b_attributes@ =~= marker_attributes());
        assert(b_offset@ =~= key_offset());
        assert(b_binding@ =~= key_binding());
        assert(b_size@ =~= key_size());
        assert(b_unassigned@ =~= unassigned());
    }

    let lines = split_byte(contents, 10);
    let mut data = ReflectionData {
        offsets: Vec::new(),
        block_sizes: Vec::new(),
        block_bindings: Vec::new(),
        uniform_bindings: Vec::new(),
    };
    let mut mode: u8 = 0;
    proof {
        assert(data.offsets.deep_view() =~= Seq::<(Seq<u8>, usize)>::empty());
        assert(data.block_sizes.deep_view() =~= Seq::<(Seq<u8>, usize)>::empty());
        assert(data.block_bindings.deep_view() =~= Seq::<(Seq<u8>, u32)>::empty());
        assert(data.uniform_bindings.deep_view() =~= Seq::<(Seq<u8>, u32)>::empty());
    }
    let n = lines.len();
    let mut i: usize = 0;
    while i < n
        invariant
            i <= n,
            n == lines@.len(),
            lines.deep_view() == spec_split_byte(contents@, 10),
            mode <= 3,
            spec_view_state(mode, data) == spec_lines_upto(lines.deep_view(), i as int),
            b_uniforms@ == marker_uniforms(),
            b_blocks@ == marker_blocks(),
            b_attributes@ == marker_attributes(),
            b_offset@ == key_offset(),
            b_binding@ == key_binding(),
            b_size@ == key_size(),
            b_unassigned@ == unassigned(),
        decreases n - i,
    {
        let ghost st_in = spec_view_state(mode, data);
        let raw = &lines[i];
        proof {
            assert(raw@ == lines.deep_view()[i as int]);
        }
        let line = if raw.len() > 0 {
            subvec(raw, 0, raw.len() - 1)
        } else {
            subvec(raw, 0, 0)
        };
        proof {
            if raw@.len() > 0 {
                assert(line@ =~= raw@.drop_last());
            } else {
                assert(line@ =~= raw@);
            }
        }
        if contains_seq(&line, b_uniforms) {
            mode = 1;
        } else if contains_seq(&line, b_blocks) {
            mode = 2;
        } else if contains_seq(&line, b_attributes) {
            mode = 3;
        } else {
            let segs = split_byte(&line, 58);
            if segs.len() >= 2 {
                let name = &segs[0];
                let fields = split_byte(&segs[1], 44);
                proof {
                    assert(name@ == spec_split_byte(line@, 58)[0]);
                    assert(segs[1]@ == spec_split_byte(line@, 58)[1]);
                }
                let fcount = fields.len();
                let mut k: usize = 0;
                while k < fcount
                    invariant
                        k <= fcount,
                        fcount == fields@.len(),
                        fields.deep_view() == spec_split_byte(
                            spec_split_byte(line@, 58)[1],
                            44,
                        ),
                        name@ == spec_split_byte(line@, 58)[0],
                        spec_view_state(mode, data) == spec_fields_upto(
                            st_in,
                            name@,
                            fields.deep_view(),
                            k as int,
                        ),
                        mode <= 3,
                        b_offset@ == key_offset(),
                        b_binding@ == key_binding(),
                        b_size@ == key_size(),
                        b_unassigned@ == unassigned(),
                    decreases fcount - k,
                {
                    let field = &fields[k];
                    proof {
                        assert(field@ == fields.deep_view()[k as int]);
                    }
                    let bits = split_byte(field, 32);
                    if bits.len() >= 3 {
                        let key = &bits[1];
                        let val = &bits[2];
                        proof {
                            assert(key@ == spec_split_byte(field@, 32)[1]);
                            assert(val@ == spec_split_byte(field@, 32)[2]);
                        }
                        if mode == 1 && bytes_eq(key.as_slice(), b_offset) && !bytes_eq(
                            val.as_slice(),
                            b_unassigned,
                        ) {
                            let v = parse_i32_or_zero(val);
                            if v >= 0 {
                                let entry_name = subvec(name, 0, name.len());
                            proof {
                                assert(entry_name@ =~= name@);
                                assert(entry_name.deep_view() =~= name@);
                            }
                                proof {
                                    assert(entry_name@ =~= name@);
                                    assert(entry_name.deep_view() =~= name@);
                                }
                                let ghost dv = data.offsets.deep_view();
                                data.offsets.push((entry_name, v as usize));
                                proof {
                                    assert(data.offsets.deep_view() =~= dv.push(
                                        (name@, v as usize),
                                    ));
                                }
                            }
                        } else if mode == 1 && bytes_eq(key.as_slice(), b_binding) && !bytes_eq(
                            val.as_slice(),
                            b_unassigned,
                        ) {
                            let v = parse_u32_or_zero(val);
                            let entry_name = subvec(name, 0, name.len());
                            proof {
                                assert(entry_name@ =~= name@);
                                assert(entry_name.deep_view() =~= name@);
                            }
                            let ghost dv = data.uniform_bindings.deep_view();
                            data.uniform_bindings.push((entry_name, v));
                            proof {
                                assert(data.uniform_bindings.deep_view() =~= dv.push((name@, v)));
                            }
                        } else if mode == 2 && bytes_eq(key.as_slice(), b_size) && !bytes_eq(
                            val.as_slice(),
                            b_unassigned,
                        ) {
                            let v = parse_u32_or_zero(val);
                            let entry_name = subvec(name, 0, name.len());
                            proof {
                                assert(entry_name@ =~= name@);
                                assert(entry_name.deep_view() =~= name@);
                            }
                            let ghost dv = data.block_sizes.deep_view();
                            data.block_sizes.push((entry_name, v as usize));
                            proof {
                                assert(data.block_sizes.deep_view() =~= dv.push(
                                    (name@, v as usize),
                                ));
                            }
                        } else if mode == 2 && bytes_eq(key.as_slice(), b_binding) && !bytes_eq(
                            val.as_slice(),
                            b_unassigned,
                        ) {
                            let v = parse_u32_or_zero(val);
                            let entry_name = subvec(name, 0, name.len());
                            proof {
                                assert(entry_name@ =~= name@);
                                assert(entry_name.deep_view() =~= name@);
                            }
                            let ghost dv = data.block_bindings.deep_view();
                            data.block_bindings.push((entry_name, v));
                            proof {
                                assert(data.block_bindings.deep_view() =~= dv.push((name@, v)));
                            }
                        }
                    }
                    k = k + 1;
                }
                proof {
                    assert(spec_view_state(mode, data) == spec_line_step(st_in, raw@));
                }
            }
        }
        i = i + 1;
    }
    proof {
        assert(spec_view_state(0, data) == (ReflState {
            mode: 0,
            ..spec_lines_upto(lines.deep_view(), n as int)
        }));
    }
    data
}

/// The value a name resolves to in a collected usize-valued table; a name
/// recorded twice resolves to its latest entry.
pub open spec fn spec_lookup_usize(entries: Seq<(Seq<u8>, usize)>, name: Seq<u8>) -> Option<usize>
    decreases entries.len(),
{
    if entries.len() == 0 {
        None
    } else if entries.last().0 == name {
        Some(entries.last().1)
    } else {
        spec_lookup_usize(entries.drop_last(), name)
    }
}

/// The value a name resolves to in a collected u32-valued table; a name
/// recorded twice resolves to its latest entry.
pub open spec fn spec_lookup_u32(entries: Seq<(Seq<u8>, u32)>, name: Seq<u8>) -> Option<u32>
    decreases entries.len(),
{
    if entries.len() == 0 {
        None
    } else if entries.last().0 == name {
        Some(entries.last().1)
    } else {
        spec_lookup_u32(entries.drop_last(), name)
    }
}

/// Look a name up in a usize-valued table.
pub fn lookup_usize(entries: &Vec<(Vec<u8>, usize)>, name: &[u8]) -> (r: Option<usize>)
    ensures
        r == spec_lookup_usize(entries.deep_view(), name@),
{
    let ghost dv = entries.deep_view();
    let mut i: usize = entries.len();
    proof {
        assert(dv.take(i as int) =~= dv);
    }
    while i > 0
        invariant
            i <= entries@.len(),
            dv == entries.deep_view(),
            dv.len() == entries@.len(),
            spec_lookup_usize(dv, name@) == spec_lookup_usize(dv.take(i as int), name@),
        decreases i,
    {
        i = i - 1;
        let e = &entries[i];
        proof {
            assert(dv[i as int] == (e.0@, e.1));
            assert(dv.take(i + 1).last() == dv[i as int]);
            assert(dv.take(i + 1).drop_last() =~= dv.take(i as int));
        }
        if bytes_eq(e.0.as_slice(), name) {
            return Some(e.1);
        }
    }
    proof {
        assert(dv.take(0) =~= Seq::<(Seq<u8>, usize)>::empty());
    }
    None
}

/// Look a name up in a u32-valued table.
pub fn lookup_u32(entries: &Vec<(Vec<u8>, u32)>, name: &[u8]) -> (r: Option<u32>)
    ensures
        r == spec_lookup_u32(entries.deep_view(), name@),
{
    let ghost dv = entries.deep_view();
    let mut i: usize = entries.len();
    proof {
        assert(dv.take(i as int) =~= dv);
    }
    while i > 0
        invariant
            i <= entries@.len(),
            dv == entries.deep_view(),
            dv.len() == entries@.len(),
            spec_lookup_u32(dv, name@) == spec_lookup_u32(dv.take(i as int), name@),
        decreases i,
    {
        i = i - 1;
        let e = &entries[i];
        proof {
            assert(dv[i as int] == (e.0@, e.1));
            assert(dv.take(i + 1).last() == dv[i as int]);
            assert(dv.take(i + 1).drop_last() =~= dv.take(i as int));
        }
        if bytes_eq(e.0.as_slice(), name) {
            return Some(e.1);
        }
    }
    proof {
        assert(dv.take(0) =~= Seq::<(Seq<u8>, u32)>::empty());
    }
    None
}

} // verus!
