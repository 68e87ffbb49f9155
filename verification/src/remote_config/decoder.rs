//! The subscriber's decoding contract, and the rules by which the client runs a decoder over a
//! product's assignment.

use vstd::prelude::*;

use crate::remote_config::error::AsApplyError;
use crate::remote_config::product::{
    chars_le, config_id_le, lemma_chars_le_total, lemma_chars_le_transitive, ConfigId,
};
use crate::text::owned;

verus! {

/// Decodes one product's assigned configurations into a snapshot.
///
/// The client drives an implementation once per published snapshot: it constructs a decoder with
/// [`Default`], calls [`decode`](Self::decode) once per assigned configuration in ascending
/// [`ConfigId`] order, and then calls [`build`](Self::build).
pub trait ProductDecoder: Default + Sized {
    /// The configuration snapshot published to subscribers.
    type Snapshot;

    /// The error this product's decoding and validation produces.
    type Error: AsApplyError;

    /// The decoder once it has accumulated the configuration `id` with `payload`.
    ///
    /// An implementation verified against [`decode`](Self::decode) defines it; the default leaves
    /// it unspecified.
    closed spec fn decoded(&self, id: Seq<char>, payload: Seq<u8>) -> Self {
        arbitrary()
    }

    /// What decoding the configuration `id` with `payload` returns from this decoder.
    ///
    /// An implementation verified against [`decode`](Self::decode) defines it; the default leaves
    /// it unspecified.
    closed spec fn decode_result(&self, id: Seq<char>, payload: Seq<u8>) -> Result<(), Self::Error> {
        arbitrary()
    }

    /// What building the snapshot returns from this decoder.
    ///
    /// An implementation verified against [`build`](Self::build) defines it; the default leaves it
    /// unspecified.
    closed spec fn built(&self) -> Result<Self::Snapshot, Self::Error> {
        arbitrary()
    }

    /// Accumulates one of the product's assigned configurations; an error rejects this
    /// configuration alone.
    fn decode(&mut self, id: &ConfigId, payload: &[u8]) -> (r: Result<(), Self::Error>)
        ensures
            r == old(self).decode_result(id@, payload@),
            *final(self) == old(self).decoded(id@, payload@),
    ;

    /// Validates the accumulated configurations and produces the snapshot to publish; an error
    /// rejects every configuration that decoded successfully.
    fn build(self) -> (r: Result<Self::Snapshot, Self::Error>)
        ensures
            r == self.built(),
    ;
}

/// What a run of a decoder produced.
pub enum Outcome<T, E> {
    /// `build` succeeded; the snapshot is published.
    Accepted(T),
    /// `build` failed; the error is published as a rejection.
    Rejected(E),
    /// `decode` or `build` panicked; nothing is published.
    Panicked,
}

/// What one run of a decoder over a product's assignment produced.
pub struct Evaluation<T, E> {
    /// The outcome of the run.
    pub outcome: Outcome<T, E>,
    /// Each assigned configuration's rejection, if any, in ascending ID order.
    pub verdicts: Vec<(ConfigId, Option<String>)>,
}

/// The reason reported when a decoder panics.
pub open spec fn panic_reason() -> Seq<char> {
    "Product decoder panicked."@
}

/// Whether the entries of an assignment are in ascending ID order.
pub open spec fn sorted_by_id(s: Seq<(ConfigId, Vec<u8>)>) -> bool {
    forall|i: int, j: int| 0 <= i < j < s.len() ==> chars_le(#[trigger] s[i].0@, #[trigger] s[j].0@)
}

/// A verdict as plain values: the ID and the rejection's text, if any.
pub open spec fn verdict_view(v: (ConfigId, Option<String>)) -> (Seq<char>, Option<Seq<char>>) {
    (
        v.0@,
        match v.1 {
            Some(r) => Some(r@),
            None => None,
        },
    )
}

/// The decoder `start` once it has decoded the first `n` entries of `sorted`, in order.
pub open spec fn decoder_after<P: ProductDecoder>(
    start: P,
    sorted: Seq<(ConfigId, Vec<u8>)>,
    n: nat,
) -> P
    decreases n,
{
    if n == 0 {
        start
    } else {
        let k = (n - 1) as int;
        decoder_after(start, sorted, k as nat).decoded(sorted[k].0@, sorted[k].1@)
    }
}

/// What `decode` returns for each entry of `sorted` when `start` decodes them in order.
pub open spec fn decode_results<P: ProductDecoder>(
    start: P,
    sorted: Seq<(ConfigId, Vec<u8>)>,
) -> Seq<Result<(), P::Error>> {
    Seq::new(
        sorted.len(),
        |i: int| decoder_after(start, sorted, i as nat).decode_result(sorted[i].0@, sorted[i].1@),
    )
}

/// What `build` returns once `start` has decoded every entry of `sorted` in order.
pub open spec fn build_result<P: ProductDecoder>(
    start: P,
    sorted: Seq<(ConfigId, Vec<u8>)>,
) -> Result<P::Snapshot, P::Error> {
    decoder_after(start, sorted, sorted.len()).built()
}

/// The outcome a build's result decides.
pub open spec fn outcome_of<T, E>(built: Result<T, E>) -> Outcome<T, E> {
    match built {
        Ok(t) => Outcome::Accepted(t),
        Err(b) => Outcome::Rejected(b),
    }
}

/// A configuration's rejection: the reason of its own decode error; else, when the build failed,
/// the build's reason; else none.
pub open spec fn rejection_of<T, E: AsApplyError>(decoded: Result<(), E>, built: Result<T, E>) -> Option<
    Seq<char>,
> {
    match decoded {
        Err(d) => Some(d.reason()),
        Ok(_) => match built {
            Ok(_) => None,
            Err(b) => Some(b.reason()),
        },
    }
}

/// Whether `e` records the configurations `ids`, whose decoding returned `decoded`, followed by a
/// build that returned `built`.
pub open spec fn concludes<T, E: AsApplyError>(
    e: Evaluation<T, E>,
    ids: Seq<Seq<char>>,
    decoded: Seq<Result<(), E>>,
    built: Result<T, E>,
) -> bool {
    &&& e.outcome == outcome_of(built)
    &&& e.verdicts@.len() == ids.len()
    &&& forall|i: int|
        0 <= i < ids.len() ==> verdict_view(#[trigger] e.verdicts@[i]) == (
            ids[i],
            rejection_of(decoded[i], built),
        )
}

/// The IDs of an assignment's entries, in order.
pub open spec fn entry_ids(s: Seq<(ConfigId, Vec<u8>)>) -> Seq<Seq<char>> {
    s.map_values(|x: (ConfigId, Vec<u8>)| x.0@)
}

/// Whether `e` is what the decoder `start` records when it decodes `sorted`, the entries of
/// `assignment` in ascending ID order, one by one and then builds.
pub open spec fn evaluates<P: ProductDecoder>(
    e: Evaluation<P::Snapshot, P::Error>,
    assignment: Seq<(ConfigId, Vec<u8>)>,
    sorted: Seq<(ConfigId, Vec<u8>)>,
    start: P,
) -> bool {
    &&& sorted_by_id(sorted)
    &&& sorted.to_multiset() == assignment.to_multiset()
    &&& concludes(e, entry_ids(sorted), decode_results(start, sorted), build_result(start, sorted))
}

proof fn lemma_insert_keeps_sorted(s: Seq<(ConfigId, Vec<u8>)>, p: int, x: (ConfigId, Vec<u8>))
    requires
        sorted_by_id(s),
        0 <= p <= s.len(),
        forall|i: int| 0 <= i < p ==> chars_le(#[trigger] s[i].0@, x.0@),
        p < s.len() ==> !chars_le(s[p].0@, x.0@),
    ensures
        sorted_by_id(s.insert(p, x)),
{
    let t = s.insert(p, x);
    if p < s.len() {
        lemma_chars_le_total(s[p].0@, x.0@);
    }
    assert forall|i: int, j: int| 0 <= i < j < t.len() implies chars_le(
        #[trigger] t[i].0@,
        #[trigger] t[j].0@,
    ) by {
        if j < p {
            assert(t[i] == s[i] && t[j] == s[j]);
        } else if j == p {
            assert(t[i] == s[i]);
        } else if i == p {
            assert(t[j] == s[j - 1]);
            if j - 1 > p {
                assert(chars_le(s[p].0@, s[j - 1].0@));
                lemma_chars_le_transitive(x.0@, s[p].0@, s[j - 1].0@);
            }
        } else if i < p {
            assert(t[i] == s[i] && t[j] == s[j - 1]);
        } else {
            assert(t[i] == s[i - 1] && t[j] == s[j - 1]);
        }
    }
}

/// Orders an assignment by ascending configuration ID, keeping every entry.
///
/// Entries with equal IDs keep their relative order.
pub fn sort_by_id(assignment: Vec<(ConfigId, Vec<u8>)>) -> (r: Vec<(ConfigId, Vec<u8>)>)
    ensures
        sorted_by_id(r@),
        r@.to_multiset() == assignment@.to_multiset(),
{
    broadcast use vstd::multiset::group_multiset_axioms;

    let mut rest = assignment;
    let mut out: Vec<(ConfigId, Vec<u8>)> = Vec::new();
    proof {
        vstd::seq_lib::to_multiset_len(out@);
        vstd::multiset::lemma_multiset_empty_len(out@.to_multiset());
        assert(out@.to_multiset().add(rest@.to_multiset()) =~= assignment@.to_multiset());
    }
    while rest.len() > 0
        invariant
            sorted_by_id(out@),
            out@.to_multiset().add(rest@.to_multiset()) == assignment@.to_multiset(),
        decreases rest.len(),
    {
        let ghost before_rest = rest@;
        let ghost before_out = out@;
        let item = rest.remove(0);
        let mut p: usize = 0;
        while p < out.len() && config_id_le(&out[p].0, &item.0)
            invariant
                p <= out.len(),
                out@ == before_out,
                forall|i: int| 0 <= i < p ==> chars_le(#[trigger] out@[i].0@, item.0@),
            decreases out.len() - p,
        {
            p = p + 1;
        }
        proof {
            lemma_insert_keeps_sorted(out@, p as int, item);
        }
        out.insert(p, item);
        proof {
            vstd::seq_lib::to_multiset_remove(before_rest, 0);
            vstd::seq_lib::to_multiset_insert(before_out, p as int, item);
            vstd::seq_lib::to_multiset_contains(before_rest, item);
            assert(before_rest.contains(item)) by {
                assert(before_rest[0] == item);
            }
            assert(out@.to_multiset().add(rest@.to_multiset()) =~= assignment@.to_multiset());
        }
    }
    proof {
        vstd::seq_lib::to_multiset_len(rest@);
        vstd::multiset::lemma_multiset_empty_len(rest@.to_multiset());
        assert(out@.to_multiset() =~= out@.to_multiset().add(rest@.to_multiset()));
    }
    out
}

/// Rejects, with the build's `reason`, every configuration that decoded successfully; the
/// configurations that `decode` rejected keep their own reasons.
pub fn reject_decoded(verdicts: &mut Vec<(ConfigId, Option<String>)>, reason: &String)
    ensures
        final(verdicts)@.len() == old(verdicts)@.len(),
        forall|i: int|
            0 <= i < old(verdicts)@.len() ==> verdict_view(#[trigger] final(verdicts)@[i]) == (
                old(verdicts)@[i].0@,
                match old(verdicts)@[i].1 {
                    Some(r) => Some(r@),
                    None => Some(reason@),
                },
            ),
{
    let ghost given = verdicts@;
    let mut i: usize = 0;
    while i < verdicts.len()
        invariant
            i <= verdicts.len(),
            verdicts@.len() == given.len(),
            forall|k: int|
                i <= k < given.len() ==> #[trigger] verdicts@[k] == given[k],
            forall|k: int|
                0 <= k < i ==> verdict_view(#[trigger] verdicts@[k]) == (
                    given[k].0@,
                    match given[k].1 {
                        Some(r) => Some(r@),
                        None => Some(reason@),
                    },
                ),
        decreases verdicts.len() - i,
    {
        if verdicts[i].1.is_none() {
            let id = verdicts[i].0.clone();
            verdicts.set(i, (id, Some(reason.clone())));
        }
        i = i + 1;
    }
}

/// Records the verdicts and the outcome of a decoder run: each configuration of `ids` is rejected
/// with the reason of its own entry of `decoded` if that is an error; when `built` is an error,
/// every other configuration is rejected with its reason and the outcome is a rejection, else the
/// outcome is the accepted snapshot.
pub fn conclude<T, E: AsApplyError>(
    ids: &Vec<ConfigId>,
    decoded: &Vec<Result<(), E>>,
    built: Result<T, E>,
) -> (e: Evaluation<T, E>)
    requires
        ids@.len() == decoded@.len(),
    ensures
        concludes(e, ids@.map_values(|id: ConfigId| id@), decoded@, built),
{
    let mut verdicts: Vec<(ConfigId, Option<String>)> = Vec::new();
    let mut i: usize = 0;
    while i < ids.len()
        invariant
            i <= ids@.len(),
            ids@.len() == decoded@.len(),
            verdicts@.len() == i,
            forall|k: int|
                0 <= k < i ==> verdict_view(#[trigger] verdicts@[k]) == (
                    ids@[k]@,
                    match decoded@[k] {
                        Err(d) => Some(d.reason()),
                        Ok(_) => None,
                    },
                ),
        decreases ids.len() - i,
    {
        let rejection = match &decoded[i] {
            Ok(()) => None,
            Err(error) => Some(error.as_apply_error().to_string()),
        };
        verdicts.push((ids[i].clone(), rejection));
        i = i + 1;
    }
    let outcome = match built {
        Ok(snapshot) => Outcome::Accepted(snapshot),
        Err(error) => {
            let reason = error.as_apply_error().to_string();
            reject_decoded(&mut verdicts, &reason);
            Outcome::Rejected(error)
        },
    };
    Evaluation { outcome, verdicts }
}

/// Runs a fresh decoder of kind `P` over one product's assignment.
///
/// The configurations are decoded once each, in ascending ID order, each with its own payload; a
/// configuration that `decode` rejects is skipped and the rest are still decoded; then `build`
/// decides the outcome, as [`conclude`] records it. When `build` fails, every configuration that
/// decoded successfully is rejected with the build's reason.
///
/// The decoder starts fresh, from the value [`Default`] gives; what that value is belongs to the
/// implementation.
pub fn evaluate<P: ProductDecoder>(assignment: Vec<(ConfigId, Vec<u8>)>) -> (e: Evaluation<
    P::Snapshot,
    P::Error,
>)
    ensures
        exists|sorted: Seq<(ConfigId, Vec<u8>)>, start: P|
            #![trigger evaluates(e, assignment@, sorted, start)]
            call_ensures(P::default, (), start) && evaluates(e, assignment@, sorted, start),
{
    let sorted = sort_by_id(assignment);
    let mut decoder = P::default();
    let ghost start = decoder;
    let mut ids: Vec<ConfigId> = Vec::new();
    let mut decoded: Vec<Result<(), P::Error>> = Vec::new();
    let mut i: usize = 0;
    while i < sorted.len()
        invariant
            i <= sorted@.len(),
            decoder == decoder_after(start, sorted@, i as nat),
            ids@.len() == i,
            decoded@.len() == i,
            forall|k: int| 0 <= k < i ==> #[trigger] ids@[k]@ == sorted@[k].0@,
            forall|k: int|
                0 <= k < i ==> #[trigger] decoded@[k] == decode_results(start, sorted@)[k],
        decreases sorted.len() - i,
    {
        let result = decoder.decode(&sorted[i].0, sorted[i].1.as_slice());
        decoded.push(result);
        ids.push(sorted[i].0.clone());
        i = i + 1;
    }
    let built = decoder.build();
    let e = conclude(&ids, &decoded, built);
    proof {
        assert(ids@.map_values(|id: ConfigId| id@) =~= entry_ids(sorted@));
        assert(decoded@ =~= decode_results(start, sorted@));
        assert(call_ensures(P::default, (), start));
        assert(evaluates(e, assignment@, sorted@, start));
    }
    e
}

/// The evaluation recorded when a decoder panicked over an assignment whose IDs, in ascending
/// order, are `ids`: nothing is published, and every configuration is rejected.
pub fn panicked_evaluation<T, E>(ids: &Vec<ConfigId>) -> (e: Evaluation<T, E>)
    ensures
        e.outcome is Panicked,
        e.verdicts@.len() == ids@.len(),
        forall|i: int|
            0 <= i < ids@.len() ==> verdict_view(#[trigger] e.verdicts@[i]) == (
                ids@[i]@,
                Some(panic_reason()),
            ),
{
    let mut verdicts: Vec<(ConfigId, Option<String>)> = Vec::new();
    let mut i: usize = 0;
    while i < ids.len()
        invariant
            i <= ids.len(),
            verdicts@.len() == i,
            forall|k: int|
                0 <= k < i ==> verdict_view(#[trigger] verdicts@[k]) == (
                    ids@[k]@,
                    Some(panic_reason()),
                ),
        decreases ids.len() - i,
    {
        let reason = owned("Product decoder panicked.");
        verdicts.push((ids[i].clone(), Some(reason)));
        i = i + 1;
    }
    Evaluation { outcome: Outcome::Panicked, verdicts }
}

} // verus!
