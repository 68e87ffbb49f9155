//! Product and configuration identities.

use vstd::prelude::*;

use crate::text::{chars_of, owned};

verus! {

/// Names the products this crate knows about, such as `APM_SEMANTIC_CORE_DD`.
#[derive(Clone, Copy, Debug, PartialEq, Eq, Hash)]
pub enum ProductId {
    /// Trace sampling configuration.
    ApmSampling,
    /// Datadog-managed semantic convention mappings.
    ApmSemanticCoreDd,
}

/// The protocol name of a product.
pub open spec fn product_name(p: ProductId) -> Seq<char> {
    match p {
        ProductId::ApmSampling => "APM_SAMPLING"@,
        ProductId::ApmSemanticCoreDd => "APM_SEMANTIC_CORE_DD"@,
    }
}

impl ProductId {
    /// Returns the protocol name of the product.
    pub fn as_ref(&self) -> (s: &'static str)
        ensures
            s@ == product_name(*self),
    {
        match self {
            ProductId::ApmSampling => "APM_SAMPLING",
            ProductId::ApmSemanticCoreDd => "APM_SEMANTIC_CORE_DD",
        }
    }
}

/// Identifies one configuration assigned to a product, such as `semantic.v1`.
///
/// Ordering is the order in which a product's configurations are presented to its decoder:
/// lexicographic by character.
#[derive(Debug, PartialEq, Eq, Hash, PartialOrd, Ord)]
pub struct ConfigId(String);

impl View for ConfigId {
    type V = Seq<char>;

    open spec fn view(&self) -> Seq<char> {
        self.id_chars()
    }
}

impl Clone for ConfigId {
    fn clone(&self) -> (r: Self)
        ensures
            r == *self,
    {
        ConfigId(self.0.clone())
    }
}

impl std::ops::Deref for ConfigId {
    type Target = str;

    fn deref(&self) -> (r: &str)
        ensures
            r@ == self@,
    {
        self.0.as_str()
    }
}

impl ConfigId {
    /// The characters of the ID.
    pub closed spec fn id_chars(&self) -> Seq<char> {
        self.0@
    }

    /// Creates a configuration ID. Any string is accepted.
    pub fn new(id: &str) -> (r: Self)
        ensures
            r@ == id@,
    {
        ConfigId(owned(id))
    }

    /// Returns the ID as a string slice.
    pub fn as_str(&self) -> (s: &str)
        ensures
            s@ == self@,
    {
        self.0.as_str()
    }

    /// Returns the ID as an owned string.
    pub fn to_string(&self) -> (s: String)
        ensures
            s@ == self@,
    {
        self.0.clone()
    }
}

/// Whether `a` orders at or before `b`: lexicographic by character code.
pub open spec fn chars_le(a: Seq<char>, b: Seq<char>) -> bool
    decreases a.len(),
{
    if a.len() == 0 {
        true
    } else if b.len() == 0 {
        false
    } else if a[0] != b[0] {
        (a[0] as int) < (b[0] as int)
    } else {
        chars_le(a.drop_first(), b.drop_first())
    }
}

/// Character order is reflexive.
pub proof fn lemma_chars_le_reflexive(a: Seq<char>)
    ensures
        chars_le(a, a),
    decreases a.len(),
{
    if a.len() > 0 {
        lemma_chars_le_reflexive(a.drop_first());
    }
}

/// Character order is total.
pub proof fn lemma_chars_le_total(a: Seq<char>, b: Seq<char>)
    ensures
        chars_le(a, b) || chars_le(b, a),
    decreases a.len(),
{
    if a.len() > 0 && b.len() > 0 {
        if a[0] == b[0] {
            lemma_chars_le_total(a.drop_first(), b.drop_first());
        } else {
            assert((a[0] as int) != (b[0] as int));
        }
    }
}

/// Character order is transitive.
pub proof fn lemma_chars_le_transitive(a: Seq<char>, b: Seq<char>, c: Seq<char>)
    requires
        chars_le(a, b),
        chars_le(b, c),
    ensures
        chars_le(a, c),
    decreases a.len(),
{
    if a.len() > 0 && b.len() > 0 && c.len() > 0 {
        if a[0] == b[0] && b[0] == c[0] {
            lemma_chars_le_transitive(a.drop_first(), b.drop_first(), c.drop_first());
        }
    }
}

/// Character order is antisymmetric.
pub proof fn lemma_chars_le_antisymmetric(a: Seq<char>, b: Seq<char>)
    requires
        chars_le(a, b),
        chars_le(b, a),
    ensures
        a == b,
    decreases a.len(),
{
    if a.len() > 0 && b.len() > 0 {
        if a[0] == b[0] {
            lemma_chars_le_antisymmetric(a.drop_first(), b.drop_first());
            assert(a =~= seq![a[0]] + a.drop_first());
            assert(b =~= seq![b[0]] + b.drop_first());
        } else {
            assert((a[0] as int) != (b[0] as int));
        }
    } else if a.len() == 0 && b.len() == 0 {
        assert(a =~= b);
    }
}

proof fn lemma_chars_le_step(a: Seq<char>, b: Seq<char>, i: int)
    requires
        0 <= i < a.len(),
        i < b.len(),
        a[i] == b[i],
    ensures
        chars_le(a.skip(i), b.skip(i)) == chars_le(a.skip(i + 1), b.skip(i + 1)),
{
    assert(a.skip(i).drop_first() =~= a.skip(i + 1));
    assert(b.skip(i).drop_first() =~= b.skip(i + 1));
}

/// Returns whether `a` orders at or before `b`.
pub fn config_id_le(a: &ConfigId, b: &ConfigId) -> (r: bool)
    ensures
        r == chars_le(a@, b@),
{
    let x = chars_of(a.as_str());
    let y = chars_of(b.as_str());
    let mut i: usize = 0;
    assert(x@.skip(0) =~= x@);
    assert(y@.skip(0) =~= y@);
    while i < x.len() && i < y.len()
        invariant
            x@ == a@,
            y@ == b@,
            i <= x.len(),
            i <= y.len(),
            chars_le(a@, b@) == chars_le(x@.skip(i as int), y@.skip(i as int)),
        decreases x.len() - i,
    {
        if x[i] != y[i] {
            let r = x[i] < y[i];
            assert(x@.skip(i as int)[0] == x@[i as int]);
            assert(y@.skip(i as int)[0] == y@[i as int]);
            return r;
        }
        proof {
            lemma_chars_le_step(x@, y@, i as int);
        }
        i = i + 1;
    }
    i == x.len()
}

} // verus!
