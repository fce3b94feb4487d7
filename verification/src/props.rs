//! Laws of the decoder, stated over the grammar models and proved once for
//! every input.

use vstd::prelude::*;

use crate::decode::v4::records::sp_position;
use crate::decode::v4::sections::sp_entityblock;
use crate::decode::v4::{legacy_node_pairs, zip_entity_nodes, NodeEntityV};
use crate::decode::{sp_decode, DecodeError};
use crate::element::{v1_supported, v2_supported, v4_supported};
use crate::mesh::{firsts, lemma_map_of_props, map_of, MeshV};
use crate::node::NodeV;
use crate::step::{lemma_sp_list_len, Step};
use crate::token::{sp_newline, sp_skip_space, sp_space1};

verus! {

/// A legacy document that declares `n` node records holds exactly `n`
/// decoded node records, and likewise for element records: the record list
/// of a matched section is exactly as long as the count the text declared.
pub proof fn lemma_v1_record_counts(s: Seq<u8>, i: int, n: nat)
    ensures
        (match crate::decode::v1::sp_node_records(s, i, n) {
            Step::Hit { val, .. } => val.len() == n,
            _ => true,
        }),
        (match crate::decode::v1::sp_element_records(s, i, n) {
            Step::Hit { val, .. } => val.len() == n,
            _ => true,
        }),
{
    lemma_sp_list_len((|j: int| crate::decode::v1::sp_node(s, j)), i, n, Seq::empty());
    lemma_sp_list_len((|j: int| crate::decode::v1::sp_element(s, j)), i, n, Seq::empty());
}

/// A decoded legacy mesh is keyed by the ids literally present in the text:
/// its node map holds exactly the ids of the node records and its element
/// map exactly the ids of the element records; when the ids are distinct,
/// each map holds exactly one entry per record.
pub proof fn lemma_v1_mesh_keyed_by_ids(s: Seq<u8>, i: int)
    ensures
        (match crate::decode::v1::sp_mesh(s, i) {
            Step::Hit { val: m, .. } => match crate::decode::v1::sp_nodes(s, i) {
                Step::Hit { next: j1, val: ns } => {
                    &&& m.nodes == map_of(ns)
                    &&& m.nodes.dom() == firsts(ns).to_set()
                    &&& (firsts(ns).no_duplicates() ==> m.nodes.len() == ns.len())
                    &&& (match sp_newline(s, j1) {
                        Step::Hit { next: j2, .. } => match crate::decode::v1::sp_elements(
                            s,
                            j2,
                        ) {
                            Step::Hit { val: es, .. } => {
                                &&& m.elements == map_of(es)
                                &&& m.elements.dom() == firsts(es).to_set()
                                &&& (firsts(es).no_duplicates() ==> m.elements.len() == es.len())
                            },
                            _ => false,
                        },
                        _ => false,
                    })
                },
                _ => false,
            },
            _ => true,
        }),
{
    match crate::decode::v1::sp_mesh(s, i) {
        Step::Hit { .. } => {
            match crate::decode::v1::sp_nodes(s, i) {
                Step::Hit { next: j1, val: ns } => {
                    lemma_map_of_props(ns);
                    match sp_newline(s, j1) {
                        Step::Hit { next: j2, .. } => {
                            match crate::decode::v1::sp_elements(s, j2) {
                                Step::Hit { val: es, .. } => {
                                    lemma_map_of_props(es);
                                },
                                _ => {},
                            }
                        },
                        _ => {},
                    }
                },
                _ => {},
            }
        },
        _ => {},
    }
}

/// A matched node entity block yields exactly as many node entries as it
/// declared nodes: its tag list and its position list are equally long, and
/// the entries it contributes to the canonical node map are the tag list
/// zipped positionally with the position list, whatever the block's
/// dimension.
pub proof fn lemma_v4_block_zip(s: Seq<u8>, i: int)
    ensures
        (match sp_entityblock(s, i) {
            Step::Hit { val: e, .. } => {
                &&& e.node_tags.len() == e.node_positions.len()
                &&& zip_entity_nodes(e).len() == e.node_tags.len()
                &&& (forall|k: int|
                    0 <= k < e.node_tags.len() ==> #[trigger] zip_entity_nodes(e)[k] == (
                        e.node_tags[k],
                        NodeV {
                            x: e.node_positions[k].x,
                            y: e.node_positions[k].y,
                            z: e.node_positions[k].z,
                        },
                    ))
                &&& legacy_node_pairs(seq![e]) == zip_entity_nodes(e)
            },
            _ => true,
        }),
{
    match sp_entityblock(s, i) {
        Step::Hit { val: e, .. } => {
            lemma_v4_block_lens(s, i);
            assert(seq![e].drop_last() =~= Seq::<NodeEntityV>::empty());
            assert(legacy_node_pairs(Seq::<NodeEntityV>::empty()) == Seq::<(i32, NodeV)>::empty());
            assert(seq![e].last() == e);
            assert(Seq::<(i32, NodeV)>::empty() + zip_entity_nodes(e) =~= zip_entity_nodes(e));
        },
        _ => {},
    }
}

/// The tag list and the position list of a matched entity block each hold
/// exactly the declared number of records.
proof fn lemma_v4_block_lens(s: Seq<u8>, i: int)
    ensures
        (match sp_entityblock(s, i) {
            Step::Hit { val: e, .. } => e.node_tags.len() == e.node_positions.len(),
            _ => true,
        }),
{
    match crate::token::sp_i32(s, i) {
        Step::Hit { next: j1, val: dim } => {
            match sp_space1(s, j1) {
                Step::Hit { next: j2, .. } => {
                    match crate::token::sp_i32(s, j2) {
                        Step::Hit { next: j3, .. } => {
                            match sp_space1(s, j3) {
                                Step::Hit { next: j4, .. } => {
                                    match crate::token::sp_i32(s, j4) {
                                        Step::Hit { next: j5, val: parametric } => {
                                            match sp_space1(s, j5) {
                                                Step::Hit { next: j6, .. } => {
                                                    match crate::token::sp_u64(s, j6) {
                                                        Step::Hit { next: j7, val: n } => {
                                                            match sp_newline(s, j7) {
                                                                Step::Hit { next: j8, .. } => {
                                                                    lemma_sp_list_len(
                                                                        (|q: int|
                                                                            crate::decode::v4::records::sp_i32_nl(
                                                                                s,
                                                                                q,
                                                                            )),
                                                                        j8,
                                                                        n as nat,
                                                                        Seq::empty(),
                                                                    );
                                                                    match crate::step::sp_list(
                                                                        (|q: int|
                                                                            crate::decode::v4::records::sp_i32_nl(
                                                                                s,
                                                                                q,
                                                                            )),
                                                                        j8,
                                                                        n as nat,
                                                                        Seq::empty(),
                                                                    ) {
                                                                        Step::Hit {
                                                                            next: j9,
                                                                            ..
                                                                        } => {
                                                                            lemma_sp_list_len(
                                                                                (|q: int|
                                                                                    sp_position(
                                                                                        s,
                                                                                        q,
                                                                                        parametric
                                                                                            == 1,
                                                                                        dim,
                                                                                    )),
                                                                                j9,
                                                                                n as nat,
                                                                                Seq::empty(),
                                                                            );
                                                                        },
                                                                        _ => {},
                                                                    }
                                                                },
                                                                _ => {},
                                                            }
                                                        },
                                                        _ => {},
                                                    }
                                                },
                                                _ => {},
                                            }
                                        },
                                        _ => {},
                                    }
                                },
                                _ => {},
                            }
                        },
                        _ => {},
                    }
                },
                _ => {},
            }
        },
        _ => {},
    }
}

/// A position record of a block whose parametric flag is unset never reads
/// a trailing parametric coordinate, whatever the block's declared
/// dimension: every matched record carries none of the three.
pub proof fn lemma_nonparametric_reads_no_uvw(s: Seq<u8>, i: int, dim: i32)
    ensures
        (match sp_position(s, i, false, dim) {
            Step::Hit { val: p, .. } => p.u is None && p.v is None && p.w is None,
            _ => true,
        }),
{
}

/// An element type code outside the legacy table is fatal: once a legacy
/// element record has consumed its id, type code, tags and count field, an
/// unsupported code aborts the decode at the position where the node-id
/// list would begin — it is never skipped or defaulted.
pub proof fn lemma_v1_unsupported_code_fatal(s: Seq<u8>, i: int)
    ensures
        (match crate::token::sp_id(s, i) {
            Step::Hit { next: j1, val: _ } => {
                let j2 = sp_skip_space(s, j1);
                match crate::token::sp_id(s, j2) {
                    Step::Hit { next: j3, val: t } => {
                        let j4 = sp_skip_space(s, j3);
                        match crate::token::sp_id(s, j4) {
                            Step::Hit { next: j5, .. } => {
                                let j6 = sp_skip_space(s, j5);
                                match crate::token::sp_id(s, j6) {
                                    Step::Hit { next: j7, .. } => {
                                        let j8 = sp_skip_space(s, j7);
                                        match crate::token::sp_float(s, j8) {
                                            Step::Hit { next: j9, .. } => {
                                                let j10 = sp_skip_space(s, j9);
                                                !v1_supported(t)
                                                    ==> crate::decode::v1::sp_element(s, i)
                                                    == (Step::<
                                                    (i32, (i32, i32, crate::element::Topology)),
                                                >::Fatal { at: j10 })
                                            },
                                            _ => true,
                                        }
                                    },
                                    _ => true,
                                }
                            },
                            _ => true,
                        }
                    },
                    _ => true,
                }
            },
            _ => true,
        }),
{
}

/// The same law for the 2.2 table, whose element record carries its
/// discarded tag-count field between the type code and the tags.
pub proof fn lemma_v2_unsupported_code_fatal(s: Seq<u8>, i: int)
    ensures
        (match crate::token::sp_id(s, i) {
            Step::Hit { next: j1, val: _ } => {
                let j2 = sp_skip_space(s, j1);
                match crate::token::sp_id(s, j2) {
                    Step::Hit { next: j3, val: t } => {
                        let j4 = sp_skip_space(s, j3);
                        match crate::token::sp_float(s, j4) {
                            Step::Hit { next: j5, .. } => {
                                let j6 = sp_skip_space(s, j5);
                                match crate::token::sp_id(s, j6) {
                                    Step::Hit { next: j7, .. } => {
                                        let j8 = sp_skip_space(s, j7);
                                        match crate::token::sp_id(s, j8) {
                                            Step::Hit { next: j9, .. } => {
                                                let j10 = sp_skip_space(s, j9);
                                                !v2_supported(t)
                                                    ==> crate::decode::v2::sp_element(s, i)
                                                    == (Step::<
                                                    (i32, (i32, i32, crate::element::Topology)),
                                                >::Fatal { at: j10 })
                                            },
                                            _ => true,
                                        }
                                    },
                                    _ => true,
                                }
                            },
                            _ => true,
                        }
                    },
                    _ => true,
                }
            },
            _ => true,
        }),
{
}

/// The same law for the 4.1 table: an element line whose group declared an
/// unsupported type code aborts right after the line's element tag, and no
/// such line ever matches.
pub proof fn lemma_v4_unsupported_code_fatal(s: Seq<u8>, i: int, typ: i32)
    requires
        !v4_supported(typ),
    ensures
        !(crate::decode::v4::sections::sp_element_row(s, i, typ) is Hit),
        (match crate::token::sp_i32(s, i) {
            Step::Hit { next: j1, .. } => match sp_space1(s, j1) {
                Step::Hit { next: j2, .. } => crate::decode::v4::sections::sp_element_row(
                    s,
                    i,
                    typ,
                ) == (Step::<crate::decode::v4::TaggedTopology>::Fatal { at: j2 }),
                _ => true,
            },
            _ => true,
        }),
{
}

/// The try order is a contract: a buffer the legacy grammar matches always
/// decodes as the legacy dialect read it, whatever the later dialects would
/// have said of it; and one the legacy grammar misses but the 2.2 grammar
/// matches always decodes as 2.2 read it.
pub proof fn lemma_try_order(s: Seq<u8>)
    ensures
        (match crate::decode::v1::sp_mesh(s, 0) {
            Step::Hit { val, .. } => sp_decode(s) == Result::<MeshV, DecodeError>::Ok(val),
            _ => true,
        }),
        (crate::decode::v1::sp_mesh(s, 0) is Miss ==> (match crate::decode::v2::sp_mesh(s, 0) {
            Step::Hit { val, .. } => sp_decode(s) == Result::<MeshV, DecodeError>::Ok(val),
            _ => true,
        })),
{
}

} // verus!
