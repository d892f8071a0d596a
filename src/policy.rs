//! Trust policy: an image reference is trusted when it starts with the name of
//! an allowed registry followed by a slash.

use vstd::prelude::*;

verus! {

/// `p` is a prefix of `s`, compared character by character.
pub open spec fn is_prefix(p: Seq<char>, s: Seq<char>) -> bool {
    p.len() <= s.len() && s.subrange(0, p.len() as int) == p
}

/// The image reference `image` lies under registry `registry`: it starts
/// with `registry + "/"`.
pub open spec fn under_registry(image: Seq<char>, registry: Seq<char>) -> bool {
    is_prefix(registry + seq!['/'], image)
}

/// Some registry of `allowed` holds `image`.
pub open spec fn is_trusted(image: Seq<char>, allowed: Seq<Seq<char>>) -> bool {
    exists|k: int| 0 <= k < allowed.len() && #[trigger] under_registry(image, allowed[k])
}

/// The verdict on one image reference.
#[derive(Clone, Copy, Debug, PartialEq, Eq, Structural)]
pub enum Verdict {
    Trusted,
    Untrusted,
}

/// The ordered list of trusted registry host prefixes.
pub struct AllowList {
    pub registries: Vec<String>,
}

impl View for AllowList {
    type V = Seq<Seq<char>>;

    open spec fn view(&self) -> Seq<Seq<char>> {
        self.registries.deep_view()
    }
}

impl AllowList {
    pub fn new(registries: Vec<String>) -> (r: AllowList)
        ensures
            r@ == registries.deep_view(),
    {
        AllowList { registries }
    }

    /// The list that trusts nothing.
    pub fn empty() -> (r: AllowList)
        ensures
            r@ == Seq::<Seq<char>>::empty(),
    {
        let r = AllowList { registries: Vec::new() };
        assert(r@ =~= Seq::<Seq<char>>::empty());
        r
    }

    pub fn len(&self) -> (r: usize)
        ensures
            r == self@.len(),
    {
        self.registries.len()
    }
}

/// Whether `s` starts with `p + sep`, where `sep` is one character.
fn starts_with_then(s: &str, p: &str, sep: char) -> (r: bool)
    ensures
        r == is_prefix(p@ + seq![sep], s@),
{
    let n = s.unicode_len();
    let m = p.unicode_len();
    if m >= n {
        return false;
    }
    let mut i: usize = 0;
    while i < m
        invariant
            m == p@.len(),
            n == s@.len(),
            m < n,
            i <= m,
            forall|j: int| 0 <= j < i ==> s@[j] == p@[j],
        decreases m - i,
    {
        if s.get_char(i) != p.get_char(i) {
            assert(s@.subrange(0, m as int + 1)[i as int] != (p@ + seq![sep])[i as int]);
            return false;
        }
        i = i + 1;
    }
    let last = s.get_char(m);
    if last != sep {
        assert(s@.subrange(0, m as int + 1)[m as int] != (p@ + seq![sep])[m as int]);
        return false;
    }
    assert(s@.subrange(0, m as int + 1) =~= p@ + seq![sep]);
    true
}

/// Evaluates one image reference against the allow-list: trusted exactly
/// when some registry `r` of the list has `image` start with `r + "/"`.
/// The match is literal: no case folding and no default registry.
pub fn evaluate_image(image: &str, allowed: &AllowList) -> (r: Verdict)
    ensures
        (r == Verdict::Trusted) == is_trusted(image@, allowed@),
{
    let mut k: usize = 0;
    while k < allowed.registries.len()
        invariant
            k <= allowed@.len(),
            allowed@.len() == allowed.registries@.len(),
            forall|j: int| 0 <= j < k ==> !under_registry(image@, #[trigger] allowed@[j]),
        decreases allowed.registries.len() - k,
    {
        if starts_with_then(image, allowed.registries[k].as_str(), '/') {
            assert(under_registry(image@, allowed@[k as int]));
            return Verdict::Trusted;
        }
        k = k + 1;
    }
    Verdict::Untrusted
}

/// An empty allow-list trusts no image: the policy fails closed.
pub proof fn lemma_empty_allow_list_trusts_nothing(image: Seq<char>, allowed: Seq<Seq<char>>)
    requires
        allowed.len() == 0,
    ensures
        !is_trusted(image, allowed),
{
}

} // verus!
