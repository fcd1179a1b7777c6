//! The packed value-mapping codec: an ordered list of `(label, value)` pairs
//! written as `label:value,label:value` in a single CSV cell.
use vstd::prelude::*;

use crate::errors::AppError;
use crate::text::{
    decimal, first_at, free_of, is_digit, join_with, lemma_decimal,
    lemma_parse_decimal, lemma_split_join, lemma_split_once_at, parse_unsigned, parse_usize,
    render_decimal, split_on, split_once, split_text, split_text_once,
};

verus! {

/// One display label of an enumerated sensor and the value it stands for.
#[derive(Debug, Clone, PartialEq, Eq)]
pub struct ValueMapping {
    pub text: String,
    pub value: usize,
}

impl View for ValueMapping {
    type V = (Seq<char>, nat);

    open spec fn view(&self) -> (Seq<char>, nat) {
        (self.text@, self.value as nat)
    }
}

/// The `(label, value)` pairs of a list of mappings, in order.
pub open spec fn mappings_view(ms: Seq<ValueMapping>) -> Seq<(Seq<char>, nat)> {
    ms.map_values(|m: ValueMapping| m@)
}

/// `label:value` for one pair.
pub open spec fn pair_text(m: (Seq<char>, nat)) -> Seq<char> {
    m.0.push(':') + decimal(m.1)
}

/// The packed form of a mapping list: its pairs joined by `,`.
pub open spec fn pack(ms: Seq<(Seq<char>, nat)>) -> Seq<char> {
    join_with(ms.map_values(|m: (Seq<char>, nat)| pair_text(m)), ',')
}

/// Reads the pieces of a packed mapping in order. A piece without `:` is passed
/// over; a piece whose value is not an unsigned integer makes the whole read fail.
pub open spec fn unpack_pieces(pieces: Seq<Seq<char>>) -> Option<Seq<(Seq<char>, nat)>>
    decreases pieces.len(),
{
    if pieces.len() == 0 {
        Some(Seq::empty())
    } else {
        match unpack_pieces(pieces.drop_last()) {
            None => None,
            Some(prev) => match split_once(pieces.last(), ':') {
                None => Some(prev),
                Some(cut) => match parse_unsigned(cut.1) {
                    None => None,
                    Some(v) => Some(prev.push((cut.0, v))),
                },
            },
        }
    }
}

/// The mapping list that a packed string stands for, or `None` where a value in it
/// is not an unsigned integer.
pub open spec fn unpack(s: Seq<char>) -> Option<Seq<(Seq<char>, nat)>> {
    unpack_pieces(split_on(s, ','))
}

/// A label that the packed form can carry: it holds no `:` and no `,`.
pub open spec fn packable_label(label: Seq<char>) -> bool {
    free_of(label, ':') && free_of(label, ',')
}

/// A pair list that the packed form can carry: packable labels, values that fit a `usize`.
pub open spec fn packable(ms: Seq<(Seq<char>, nat)>) -> bool {
    forall|k: int| 0 <= k < ms.len() ==> packable_label(#[trigger] ms[k].0) && ms[k].1 <= usize::MAX
}

proof fn lemma_decimal_free(n: nat, c: char)
    requires
        !is_digit(c),
    ensures
        free_of(decimal(n), c),
{
    lemma_decimal(n);
    let d = decimal(n);
    assert forall|i: int| 0 <= i < d.len() implies #[trigger] d[i] != c by {
        assert(is_digit(d[i]));
    }
}

proof fn lemma_unpack_pairs(ms: Seq<(Seq<char>, nat)>)
    requires
        packable(ms),
    ensures
        unpack_pieces(ms.map_values(|m: (Seq<char>, nat)| pair_text(m))) == Some(ms),
    decreases ms.len(),
{
    let pieces = ms.map_values(|m: (Seq<char>, nat)| pair_text(m));
    if ms.len() == 0 {
        assert(pieces =~= Seq::<Seq<char>>::empty());
        assert(ms =~= Seq::<(Seq<char>, nat)>::empty());
    } else {
        let init = ms.drop_last();
        assert(packable(init)) by {
            assert forall|k: int| 0 <= k < init.len() implies packable_label(
                #[trigger] init[k].0,
            ) && init[k].1 <= usize::MAX by {
                assert(init[k] == ms[k]);
            }
        }
        lemma_unpack_pairs(init);
        assert(pieces.drop_last() =~= init.map_values(|m: (Seq<char>, nat)| pair_text(m)));
        let last = ms[ms.len() - 1];
        assert(packable_label(last.0) && last.1 <= usize::MAX);
        assert(pieces.last() == last.0.push(':') + decimal(last.1));
        lemma_split_once_at(last.0, decimal(last.1), ':');
        lemma_parse_decimal(last.1);
        assert(init.push(last) =~= ms);
    }
}

/// Unpacking the packed form of a list gives the list back, whenever its labels
/// hold no `:` and no `,`.
pub proof fn lemma_round_trip(ms: Seq<(Seq<char>, nat)>)
    requires
        packable(ms),
    ensures
        unpack(pack(ms)) == Some(ms),
{
    let pieces = ms.map_values(|m: (Seq<char>, nat)| pair_text(m));
    if ms.len() == 0 {
        lemma_empty_mapping();
        assert(ms =~= Seq::<(Seq<char>, nat)>::empty());
    } else {
        assert forall|k: int| 0 <= k < pieces.len() implies free_of(#[trigger] pieces[k], ',') by {
            let m = ms[k];
            assert(packable_label(m.0));
            lemma_decimal_free(m.1, ',');
            let p = m.0.push(':') + decimal(m.1);
            assert(pieces[k] == p);
            assert forall|i: int| 0 <= i < p.len() implies #[trigger] p[i] != ',' by {
                if i < m.0.len() {
                    assert(p[i] == m.0[i]);
                } else if i > m.0.len() {
                    assert(p[i] == decimal(m.1)[i - m.0.len() - 1]);
                }
            }
        }
        lemma_split_join(pieces, ',');
        lemma_unpack_pairs(ms);
    }
}

/// The empty list packs to the empty string, and the empty string unpacks to the
/// empty list.
pub proof fn lemma_empty_mapping()
    ensures
        pack(Seq::empty()) == Seq::<char>::empty(),
        unpack(Seq::<char>::empty()) == Some(Seq::<(Seq<char>, nat)>::empty()),
{
    let e = Seq::<char>::empty();
    assert(Seq::<(Seq<char>, nat)>::empty().map_values(|m: (Seq<char>, nat)| pair_text(m))
        =~= Seq::<Seq<char>>::empty());
    assert(split_on(e, ',') == seq![e]);
    assert(seq![e].drop_last() =~= Seq::<Seq<char>>::empty());
    assert(!exists|i: int| first_at(e, ':', i));
    assert(split_once(e, ':') is None);
    assert(unpack_pieces(Seq::<Seq<char>>::empty()) == Some(Seq::<(Seq<char>, nat)>::empty()));
    assert(seq![e].last() == e);
}

/// Packs `ms` into one string: `label:value` for each pair, joined by `,`.
pub fn encode_value_mapping(ms: &Vec<ValueMapping>) -> (r: String)
    ensures
        r@ == pack(mappings_view(ms@)),
{
    let mut out = String::new();
    let mut i: usize = 0;
    proof {
        reveal_strlit(",");
        reveal_strlit(":");
        assert(mappings_view(ms@.take(0)).map_values(|m: (Seq<char>, nat)| pair_text(m))
            =~= Seq::<Seq<char>>::empty());
    }
    while i < ms.len()
        invariant
            i <= ms@.len(),
            out@ == pack(mappings_view(ms@.take(i as int))),
            ","@ == seq![','],
            ":"@ == seq![':'],
        decreases ms@.len() - i,
    {
        let ghost before = out@;
        let m = &ms[i];
        if i > 0 {
            out.append(",");
        }
        out.append(m.text.as_str());
        out.append(":");
        let digits = render_decimal(m.value);
        out.append(digits.as_str());
        proof {
            let pieces = mappings_view(ms@.take(i + 1)).map_values(
                |m: (Seq<char>, nat)| pair_text(m),
            );
            let prev = mappings_view(ms@.take(i as int)).map_values(
                |m: (Seq<char>, nat)| pair_text(m),
            );
            assert(pieces.drop_last() =~= prev);
            assert(pieces.last() == pair_text(m@));
            if i == 0 {
                assert(out@ =~= pair_text(m@));
            } else {
                assert(out@ =~= before.push(',') + pair_text(m@));
            }
        }
        i = i + 1;
    }
    assert(ms@.take(ms@.len() as int) =~= ms@);
    out
}

/// Reads a packed mapping back into its pairs, in order. Fails with
/// `InvalidValueMapping` where a value is not an unsigned integer.
pub fn decode_value_mapping(s: &str) -> (r: Result<Vec<ValueMapping>, AppError>)
    ensures
        match r {
            Ok(ms) => unpack(s@) == Some(mappings_view(ms@)),
            Err(e) => unpack(s@) is None && e == AppError::InvalidValueMapping,
        },
{
    let pieces = split_text(s, ',');
    let ghost pv = pieces@.map_values(|p: String| p@);
    let mut out: Vec<ValueMapping> = Vec::new();
    let mut i: usize = 0;
    assert(pv.take(0) =~= Seq::<Seq<char>>::empty());
    assert(mappings_view(out@) =~= Seq::<(Seq<char>, nat)>::empty());
    while i < pieces.len()
        invariant
            i <= pieces@.len(),
            pv == pieces@.map_values(|p: String| p@),
            pv == split_on(s@, ','),
            unpack_pieces(pv.take(i as int)) == Some(mappings_view(out@)),
        decreases pieces@.len() - i,
    {
        assert(pv.take(i + 1).drop_last() =~= pv.take(i as int));
        assert(pv.take(i + 1).last() == pieces@[i as int]@);
        match split_text_once(pieces[i].as_str(), ':') {
            None => {},
            Some((label, digits)) => match parse_usize(digits.as_str()) {
                None => {
                    proof {
                        let k = (i + 1) as int;
                        lemma_unpack_fails_later(pv, k, pv.len() as int);
                        assert(pv.take(pv.len() as int) =~= pv);
                    }
                    return Err(AppError::InvalidValueMapping);
                },
                Some(v) => {
                    let ghost before = mappings_view(out@);
                    out.push(ValueMapping { text: label, value: v });
                    assert(mappings_view(out@) =~= before.push((label@, v as nat)));
                },
            },
        }
        i = i + 1;
    }
    assert(pv.take(pv.len() as int) =~= pv);
    Ok(out)
}

proof fn lemma_unpack_fails_later(pv: Seq<Seq<char>>, k: int, j: int)
    requires
        0 <= k <= j <= pv.len(),
        unpack_pieces(pv.take(k)) is None,
    ensures
        unpack_pieces(pv.take(j)) is None,
    decreases j - k,
{
    if k < j {
        lemma_unpack_fails_later(pv, k, j - 1);
        assert(pv.take(j).drop_last() =~= pv.take(j - 1));
    }
}

} // verus!
