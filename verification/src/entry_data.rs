//! The opaque, serializable reference attached to every displayed
//! result.
//!
//! A reference identifies either a docset selection (completion tier)
//! or a concrete item, and is the only state a caller keeps between
//! displaying a result and activating it later.  It crosses the caller
//! boundary as a byte string and must come back unmodified, so encoding
//! and decoding are verified here: [`lemma_reference_roundtrip`] proves
//! that decoding an encoded reference always yields the original value.
//!
//! The wire format is a tag byte (`D` for a docset selection, `E` for
//! an item), followed by the fields, each preceded by `|` and with `|`
//! and `\` escaped by `\`.

use vstd::prelude::*;

verus! {

/// A decoded action reference: either a docset-selection completion or
/// a concrete item inside a docset.
#[derive(Debug, Clone, PartialEq, Eq)]
pub enum EntryData {
    DocSet { provider: Vec<u8>, id: Vec<u8> },
    Entry { provider: Vec<u8>, doc_set_id: Vec<u8>, item_id: Vec<u8> },
}

/// The mathematical model of an [`EntryData`].
#[verifier::ext_equal]
pub enum EntryDataV {
    DocSet { provider: Seq<u8>, id: Seq<u8> },
    Entry { provider: Seq<u8>, doc_set_id: Seq<u8>, item_id: Seq<u8> },
}

impl DeepView for EntryData {
    type V = EntryDataV;

    open spec fn deep_view(&self) -> EntryDataV {
        match self {
            EntryData::DocSet { provider, id } => EntryDataV::DocSet {
                provider: provider@,
                id: id@,
            },
            EntryData::Entry { provider, doc_set_id, item_id } => EntryDataV::Entry {
                provider: provider@,
                doc_set_id: doc_set_id@,
                item_id: item_id@,
            },
        }
    }
}

/// The escape sequence for one byte: `|` and `\` get a leading `\`.
pub open spec fn esc_one(b: u8) -> Seq<u8> {
    if b == 124 || b == 92 {
        seq![92u8, b]
    } else {
        seq![b]
    }
}

/// The escaped form of a field: every `|` and `\` preceded by `\`.
pub open spec fn esc(s: Seq<u8>) -> Seq<u8>
    decreases s.len(),
{
    if s.len() == 0 {
        Seq::empty()
    } else {
        esc_one(s[0]) + esc(s.drop_first())
    }
}

/// The encoded form of a reference.
pub open spec fn encode_spec(d: EntryDataV) -> Seq<u8> {
    match d {
        EntryDataV::DocSet { provider, id } => seq![68u8, 124u8] + esc(provider) + seq![124u8]
            + esc(id),
        EntryDataV::Entry { provider, doc_set_id, item_id } => seq![69u8, 124u8] + esc(provider)
            + seq![124u8] + esc(doc_set_id) + seq![124u8] + esc(item_id),
    }
}

/// Parses one escaped field: the unescaped field up to the first bare
/// `|` (or the end), and the unconsumed remainder starting at that `|`.
/// `None` when the input ends in a dangling escape.
pub open spec fn parse_field(s: Seq<u8>) -> Option<(Seq<u8>, Seq<u8>)>
    decreases s.len(),
{
    if s.len() == 0 {
        Some((Seq::empty(), s))
    } else if s[0] == 124 {
        Some((Seq::empty(), s))
    } else if s[0] == 92 {
        if s.len() >= 2 {
            match parse_field(s.skip(2)) {
                Some((f, r)) => Some((seq![s[1]] + f, r)),
                None => None,
            }
        } else {
            None
        }
    } else {
        match parse_field(s.drop_first()) {
            Some((f, r)) => Some((seq![s[0]] + f, r)),
            None => None,
        }
    }
}

/// The decoded form of a byte string: `Some` exactly when it is a
/// well-formed reference.
pub open spec fn decode_spec(s: Seq<u8>) -> Option<EntryDataV> {
    if s.len() >= 2 && s[1] == 124 && s[0] == 68 {
        match parse_field(s.skip(2)) {
            Some((provider, r1)) => if r1.len() >= 1 && r1[0] == 124 {
                match parse_field(r1.skip(1)) {
                    Some((id, r2)) => if r2.len() == 0 {
                        Some(EntryDataV::DocSet { provider, id })
                    } else {
                        None
                    },
                    None => None,
                }
            } else {
                None
            },
            None => None,
        }
    } else if s.len() >= 2 && s[1] == 124 && s[0] == 69 {
        match parse_field(s.skip(2)) {
            Some((provider, r1)) => if r1.len() >= 1 && r1[0] == 124 {
                match parse_field(r1.skip(1)) {
                    Some((doc_set_id, r2)) => if r2.len() >= 1 && r2[0] == 124 {
                        match parse_field(r2.skip(1)) {
                            Some((item_id, r3)) => if r3.len() == 0 {
                                Some(EntryDataV::Entry { provider, doc_set_id, item_id })
                            } else {
                                None
                            },
                            None => None,
                        }
                    } else {
                        None
                    },
                    None => None,
                }
            } else {
                None
            },
            None => None,
        }
    } else {
        None
    }
}

/// Escaping distributes over concatenation.
proof fn lemma_esc_concat(a: Seq<u8>, b: Seq<u8>)
    ensures
        esc(a + b) == esc(a) + esc(b),
    decreases a.len(),
{
    if a.len() == 0 {
        assert(a + b =~= b);
        assert(esc(a) + esc(b) =~= esc(b));
    } else {
        lemma_esc_concat(a.drop_first(), b);
        assert((a + b).drop_first() =~= a.drop_first() + b);
        assert(esc(a + b) =~= esc(a) + esc(b));
    }
}

/// Parsing an escaped field followed by a bare `|` (or nothing)
/// recovers the field and leaves the rest untouched.
proof fn lemma_parse_field_esc(a: Seq<u8>, r: Seq<u8>)
    requires
        r.len() == 0 || r[0] == 124,
    ensures
        parse_field(esc(a) + r) == Some((a, r)),
    decreases a.len(),
{
    if a.len() == 0 {
        assert(esc(a) + r =~= r);
        if r.len() == 0 {
            assert(parse_field(r) == Some((Seq::<u8>::empty(), r)));
        }
        assert(a =~= Seq::<u8>::empty());
    } else {
        let tail = a.drop_first();
        lemma_parse_field_esc(tail, r);
        let s = esc(a) + r;
        if a[0] == 124 || a[0] == 92 {
            assert(s =~= seq![92u8, a[0]] + (esc(tail) + r));
            assert(s[0] == 92 && s[1] == a[0] && s.len() >= 2);
            assert(s.skip(2) =~= esc(tail) + r);
            assert(seq![s[1]] + tail =~= a);
        } else {
            assert(s =~= seq![a[0]] + (esc(tail) + r));
            assert(s[0] == a[0]);
            assert(s.drop_first() =~= esc(tail) + r);
            assert(seq![s[0]] + tail =~= a);
        }
    }
}

/// Round trip: decoding an encoded reference yields the original value,
/// for every reference.
pub proof fn lemma_reference_roundtrip(d: EntryDataV)
    ensures
        decode_spec(encode_spec(d)) == Some(d),
{
    let s = encode_spec(d);
    match d {
        EntryDataV::DocSet { provider, id } => {
            let r1 = seq![124u8] + esc(id);
            assert(s.len() >= 2 && s[0] == 68 && s[1] == 124);
            assert(s.skip(2) =~= esc(provider) + r1);
            lemma_parse_field_esc(provider, r1);
            assert(r1.skip(1) =~= esc(id) + Seq::<u8>::empty());
            lemma_parse_field_esc(id, Seq::<u8>::empty());
        },
        EntryDataV::Entry { provider, doc_set_id, item_id } => {
            let r2 = seq![124u8] + esc(item_id);
            let r1 = seq![124u8] + esc(doc_set_id) + r2;
            assert(s.len() >= 2 && s[0] == 69 && s[1] == 124);
            assert(s.skip(2) =~= esc(provider) + r1);
            lemma_parse_field_esc(provider, r1);
            assert(r1.skip(1) =~= esc(doc_set_id) + r2);
            lemma_parse_field_esc(doc_set_id, r2);
            assert(r2.skip(1) =~= esc(item_id) + Seq::<u8>::empty());
            lemma_parse_field_esc(item_id, Seq::<u8>::empty());
        },
    }
}

/// Appends the escaped form of `field` to `out`.
fn push_escaped(out: &mut Vec<u8>, field: &Vec<u8>)
    ensures
        final(out)@ == old(out)@ + esc(field@),
{
    let mut i: usize = 0;
    while i < field.len()
        invariant
            i <= field.len(),
            out@ =~= old(out)@ + esc(field@.take(i as int)),
        decreases field.len() - i,
    {
        let b = field[i];
        if b == 124 || b == 92 {
            out.push(92);
        }
        out.push(b);
        proof {
            assert(field@.take(i + 1) =~= field@.take(i as int) + seq![field@[i as int]]);
            lemma_esc_concat(field@.take(i as int), seq![field@[i as int]]);
            assert(seq![field@[i as int]].drop_first() =~= Seq::<u8>::empty());
            assert(esc(Seq::<u8>::empty()) == Seq::<u8>::empty());
            assert(esc(seq![field@[i as int]]) =~= esc_one(field@[i as int]));
            assert(out@ =~= old(out)@ + esc(field@.take(i + 1)));
        }
        i += 1;
    }
    proof {
        assert(field@.take(field.len() as int) =~= field@);
    }
}

/// Encodes a reference into its transport-safe byte-string form.
pub fn encode_entry_data(d: &EntryData) -> (r: Vec<u8>)
    ensures
        r@ == encode_spec(d.deep_view()),
{
    let mut out: Vec<u8> = Vec::new();
    match d {
        EntryData::DocSet { provider, id } => {
            out.push(68);
            out.push(124);
            push_escaped(&mut out, provider);
            out.push(124);
            push_escaped(&mut out, id);
            proof {
                assert(out@ =~= encode_spec(d.deep_view()));
            }
        },
        EntryData::Entry { provider, doc_set_id, item_id } => {
            out.push(69);
            out.push(124);
            push_escaped(&mut out, provider);
            out.push(124);
            push_escaped(&mut out, doc_set_id);
            out.push(124);
            push_escaped(&mut out, item_id);
            proof {
                assert(out@ =~= encode_spec(d.deep_view()));
            }
        },
    }
    out
}

/// Parses one escaped field of `s` starting at `start`; on success the
/// unescaped field and the index of the bare `|` (or the end) that
/// ended it.
fn parse_field_exec(s: &Vec<u8>, start: usize) -> (r: Option<(Vec<u8>, usize)>)
    requires
        start <= s.len(),
    ensures
        match r {
            Some(p) => {
                &&& p.1 <= s@.len()
                &&& (p.1 == s@.len() || s@[p.1 as int] == 124)
                &&& parse_field(s@.skip(start as int)) == Some((p.0@, s@.skip(p.1 as int)))
            },
            None => parse_field(s@.skip(start as int)) is None,
        },
{
    let mut acc: Vec<u8> = Vec::new();
    let mut i: usize = start;
    loop
        invariant
            start <= i <= s.len(),
            parse_field(s@.skip(start as int)) == (match parse_field(s@.skip(i as int)) {
                Some((f, r)) => Some((acc@ + f, r)),
                None => None,
            }),
        decreases s.len() - i,
    {
        if i == s.len() {
            proof {
                assert(s@.skip(i as int) =~= Seq::<u8>::empty());
                assert(acc@ + Seq::<u8>::empty() =~= acc@);
            }
            return Some((acc, i));
        }
        let b = s[i];
        if b == 124 {
            proof {
                assert(parse_field(s@.skip(i as int)) == Some(
                    (Seq::<u8>::empty(), s@.skip(i as int)),
                ));
                assert(acc@ + Seq::<u8>::empty() =~= acc@);
            }
            return Some((acc, i));
        }
        if b == 92 {
            if i + 1 == s.len() {
                proof {
                    assert(s@.skip(i as int).len() == 1);
                }
                return None;
            }
            let ghost acc0 = acc@;
            acc.push(s[i + 1]);
            proof {
                assert(s@.skip(i as int).skip(2) =~= s@.skip(i + 2));
                match parse_field(s@.skip(i + 2)) {
                    Some((f, r)) => {
                        assert(acc0 + (seq![s@[i + 1]] + f) =~= acc@ + f);
                    },
                    None => {},
                }
            }
            i += 2;
        } else {
            let ghost acc0 = acc@;
            acc.push(b);
            proof {
                assert(s@.skip(i as int).drop_first() =~= s@.skip(i + 1));
                match parse_field(s@.skip(i + 1)) {
                    Some((f, r)) => {
                        assert(acc0 + (seq![s@[i as int]] + f) =~= acc@ + f);
                    },
                    None => {},
                }
            }
            i += 1;
        }
    }
}

/// Decodes a byte string back into a reference; `None` when it is not a
/// well-formed encoding (malformed or tampered).
pub fn decode_entry_data(s: &Vec<u8>) -> (r: Option<EntryData>)
    ensures
        match (r, decode_spec(s@)) {
            (Some(d), Some(dv)) => d.deep_view() == dv,
            (None, None) => true,
            _ => false,
        },
{
    if s.len() < 2 {
        return None;
    }
    if s[1] != 124 {
        return None;
    }
    let tag = s[0];
    if tag != 68 && tag != 69 {
        return None;
    }
    let (provider, e1) = match parse_field_exec(s, 2) {
        Some(p) => p,
        None => {
            return None;
        },
    };
    if e1 == s.len() {
        return None;
    }
    proof {
        assert(s@.skip(e1 as int).len() >= 1 && s@.skip(e1 as int)[0] == 124);
        assert(s@.skip(e1 as int).skip(1) =~= s@.skip(e1 + 1));
    }
    let (second, e2) = match parse_field_exec(s, e1 + 1) {
        Some(p) => p,
        None => {
            return None;
        },
    };
    if tag == 68 {
        if e2 == s.len() {
            proof {
                assert(s@.skip(e2 as int).len() == 0);
            }
            Some(EntryData::DocSet { provider, id: second })
        } else {
            None
        }
    } else {
        if e2 == s.len() {
            return None;
        }
        proof {
            assert(s@.skip(e2 as int).len() >= 1 && s@.skip(e2 as int)[0] == 124);
            assert(s@.skip(e2 as int).skip(1) =~= s@.skip(e2 + 1));
        }
        let (item_id, e3) = match parse_field_exec(s, e2 + 1) {
            Some(p) => p,
            None => {
                return None;
            },
        };
        if e3 == s.len() {
            proof {
                assert(s@.skip(e3 as int).len() == 0);
            }
            Some(EntryData::Entry { provider, doc_set_id: second, item_id })
        } else {
            None
        }
    }
}

} // verus!
