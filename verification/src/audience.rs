//! The audiences that a relying party accepts, and those that a token names.

use crate::text;
use vstd::prelude::*;

verus! {

/// Strings in the order of their characters: a string comes after its own
/// prefixes, and otherwise the first difference decides.
pub open spec fn comes_before(a: Seq<char>, b: Seq<char>) -> bool
    decreases a.len(),
{
    if b.len() == 0 {
        false
    } else if a.len() == 0 {
        true
    } else if a[0] != b[0] {
        a[0] < b[0]
    } else {
        comes_before(a.drop_first(), b.drop_first())
    }
}

/// `comes_before` is a strict total order.
pub proof fn lemma_order_total(a: Seq<char>, b: Seq<char>)
    ensures
        comes_before(a, b) || a == b || comes_before(b, a),
        !(comes_before(a, b) && comes_before(b, a)),
        a == b ==> !comes_before(a, b),
    decreases a.len(),
{
    if a.len() > 0 && b.len() > 0 {
        lemma_order_total(a.drop_first(), b.drop_first());
        if a[0] == b[0] && a.drop_first() == b.drop_first() {
            assert(a =~= seq![a[0]] + a.drop_first());
            assert(b =~= seq![b[0]] + b.drop_first());
        }
    } else if a.len() == 0 && b.len() == 0 {
        assert(a =~= b);
    }
}

proof fn lemma_order_transitive(a: Seq<char>, b: Seq<char>, c: Seq<char>)
    requires
        comes_before(a, b),
        comes_before(b, c),
    ensures
        comes_before(a, c),
    decreases a.len(),
{
    if a.len() > 0 && a[0] == b[0] && b[0] == c[0] {
        lemma_order_transitive(a.drop_first(), b.drop_first(), c.drop_first());
    }
}

/// In increasing order nothing occurs twice.
pub proof fn law_increasing_has_no_duplicates(items: Seq<Seq<char>>)
    requires
        increasing(items),
    ensures
        items.no_duplicates(),
{
    assert forall|i: int, j: int| 0 <= i < items.len() && 0 <= j < items.len() && i != j implies
        items[i] != items[j] by {
        lemma_order_total(items[i], items[j]);
        if i < j {
            assert(comes_before(items[i], items[j]));
        } else {
            assert(comes_before(items[j], items[i]));
        }
    }
}

/// How two strings stand to each other in the order of `comes_before`.
enum Order {
    Before,
    Same,
    After,
}

fn order_of(a: &str, b: &str) -> (r: Order)
    ensures
        match r {
            Order::Before => comes_before(a@, b@),
            Order::Same => a@ == b@,
            Order::After => comes_before(b@, a@),
        },
{
    let xs = text::chars_of(a);
    let ys = text::chars_of(b);
    let mut i: usize = 0;
    assert(a@.skip(0) =~= a@);
    assert(b@.skip(0) =~= b@);
    while i < xs.len() && i < ys.len() && xs[i] == ys[i]
        invariant
            xs@ == a@,
            ys@ == b@,
            i <= xs.len(),
            i <= ys.len(),
            a@.take(i as int) == b@.take(i as int),
            comes_before(a@, b@) == comes_before(a@.skip(i as int), b@.skip(i as int)),
            comes_before(b@, a@) == comes_before(b@.skip(i as int), a@.skip(i as int)),
        decreases xs.len() - i,
    {
        assert(a@.skip(i as int).drop_first() =~= a@.skip(i + 1));
        assert(b@.skip(i as int).drop_first() =~= b@.skip(i + 1));
        assert(a@.take(i + 1) =~= a@.take(i as int).push(a@[i as int]));
        assert(b@.take(i + 1) =~= b@.take(i as int).push(b@[i as int]));
        i += 1;
    }
    if i < xs.len() && i < ys.len() {
        assert(a@.skip(i as int)[0] == a@[i as int]);
        assert(b@.skip(i as int)[0] == b@[i as int]);
        if xs[i] < ys[i] {
            Order::Before
        } else {
            Order::After
        }
    } else if i < ys.len() {
        Order::Before
    } else if i < xs.len() {
        Order::After
    } else {
        assert(a@.take(i as int) =~= a@);
        assert(b@.take(i as int) =~= b@);
        Order::Same
    }
}

/// A set of audiences. Its items are kept in the order of their characters, and
/// nothing occurs twice.
#[derive(Debug)]
pub struct AudienceSet {
    items: Vec<String>,
}

/// Whether strings stand in strictly increasing order.
pub open spec fn increasing(items: Seq<Seq<char>>) -> bool {
    forall|i: int, j: int|
        0 <= i < j < items.len() ==> comes_before(#[trigger] items[i], #[trigger] items[j])
}

/// The characters of each string.
pub open spec fn texts(items: Seq<String>) -> Seq<Seq<char>> {
    items.map_values(|s: String| s@)
}

impl View for AudienceSet {
    type V = Set<Seq<char>>;

    closed spec fn view(&self) -> Set<Seq<char>> {
        texts(self.items@).to_set()
    }
}

impl Clone for AudienceSet {
    fn clone(&self) -> (r: AudienceSet)
        ensures
            r@ == self@,
    {
        proof {
            use_type_invariant(self);
        }
        let items = self.items.clone();
        assert(texts(items@) =~= texts(self.items@));
        AudienceSet { items }
    }
}

impl AudienceSet {
    #[verifier::type_invariant]
    spec fn ordered(self) -> bool {
        increasing(texts(self.items@))
    }

    /// No audience at all.
    pub fn new() -> (r: AudienceSet)
        ensures
            r@ == Set::<Seq<char>>::empty(),
    {
        let items: Vec<String> = Vec::new();
        let set = AudienceSet { items };
        assert(set@ =~= Set::<Seq<char>>::empty());
        set
    }

    /// Whether an audience is in the set.
    pub fn contains(&self, audience: &str) -> (r: bool)
        ensures
            r == self@.contains(audience@),
    {
        let ghost all = texts(self.items@);
        let mut i: usize = 0;
        while i < self.items.len()
            invariant
                i <= self.items.len(),
                all == texts(self.items@),
                forall|j: int| 0 <= j < i ==> all[j] != audience@,
            decreases self.items.len() - i,
        {
            if text::same_text(self.items[i].as_str(), audience) {
                assert(all[i as int] == audience@);
                return true;
            }
            i += 1;
        }
        false
    }

    /// The audiences in the set, in the order of their characters.
    pub fn as_slice(&self) -> (r: &[String])
        ensures
            texts(r@).to_set() == self@,
            increasing(texts(r@)),
    {
        proof {
            use_type_invariant(self);
        }
        self.items.as_slice()
    }

    /// The set with one more audience.
    pub fn with(self, audience: String) -> (r: AudienceSet)
        ensures
            r@ == self@.insert(audience@),
    {
        proof {
            use_type_invariant(&self);
        }
        let mut items = self.items;
        let ghost before = texts(items@);
        let mut i: usize = 0;
        while i < items.len()
            invariant
                i <= items.len(),
                before == texts(items@),
                increasing(before),
                before.to_set() == self@,
                forall|j: int| 0 <= j < i ==> comes_before(#[trigger] before[j], audience@),
            ensures
                i <= items.len(),
                forall|j: int| 0 <= j < i ==> comes_before(#[trigger] before[j], audience@),
                i < items.len() ==> comes_before(audience@, before[i as int]),
            decreases items.len() - i,
        {
            match order_of(items[i].as_str(), audience.as_str()) {
                Order::Before => {
                    assert(comes_before(before[i as int], audience@));
                    i += 1;
                },
                Order::Same => {
                    assert(before[i as int] == audience@);
                    assert(self@.insert(audience@) =~= self@);
                    return AudienceSet { items };
                },
                Order::After => {
                    break;
                },
            }
        }
        let ghost added = audience@;
        items.insert(i, audience);
        let ghost after = texts(items@);
        proof {
            assert(after =~= before.insert(i as int, added));
            assert forall|j: int, k: int| 0 <= j < k < after.len() implies comes_before(
                #[trigger] after[j],
                #[trigger] after[k],
            ) by {
                if j == i {
                    if k > i + 1 {
                        assert(comes_before(before[i as int], before[k - 1]));
                        lemma_order_transitive(added, before[i as int], before[k - 1]);
                    }
                } else if j < i && k > i {
                    assert(comes_before(before[j], before[k - 1]));
                } else if j < i && k == i {
                } else if j < i {
                    assert(comes_before(before[j], before[k]));
                } else {
                    assert(comes_before(before[j - 1], before[k - 1]));
                }
            }
            assert forall|t: Seq<char>| after.contains(t) <==> before.contains(t) || t == added by {
                if after.contains(t) {
                    let k = choose|k: int| 0 <= k < after.len() && after[k] == t;
                    if k < i {
                        assert(before[k] == t);
                    } else if k > i {
                        assert(before[k - 1] == t);
                    }
                }
                if before.contains(t) {
                    let k = choose|k: int| 0 <= k < before.len() && before[k] == t;
                    if k < i {
                        assert(after[k] == t);
                    } else {
                        assert(after[k + 1] == t);
                    }
                }
                assert(after[i as int] == added);
            }
            assert(after.to_set() =~= before.to_set().insert(added));
        }
        AudienceSet { items }
    }
}

/// A token's `aud` claim: one audience or a list.
#[derive(Clone, Debug)]
pub enum AudienceClaim {
    One(String),
    Many(Vec<String>),
}

impl View for AudienceClaim {
    type V = AudienceClaimView;

    open spec fn view(&self) -> AudienceClaimView {
        match self {
            AudienceClaim::One(audience) => AudienceClaimView::One(audience@),
            AudienceClaim::Many(audiences) => AudienceClaimView::Many(texts(audiences@)),
        }
    }
}

/// What an [`AudienceClaim`] says.
pub enum AudienceClaimView {
    One(Seq<char>),
    Many(Seq<Seq<char>>),
}

impl AudienceClaimView {
    /// The audiences that the claim names, in order.
    pub open spec fn values(self) -> Seq<Seq<char>> {
        match self {
            AudienceClaimView::One(audience) => seq![audience],
            AudienceClaimView::Many(audiences) => audiences,
        }
    }

    /// At least one of the audiences is allowed.
    pub open spec fn matches_any(self, allowed: Set<Seq<char>>) -> bool {
        exists|i: int| 0 <= i < self.values().len() && allowed.contains(#[trigger] self.values()[i])
    }

    /// The audience, when the claim names exactly one.
    pub open spec fn single(self) -> Option<Seq<char>> {
        if self.values().len() == 1 {
            Some(self.values()[0])
        } else {
            None
        }
    }
}

impl AudienceClaim {
    /// True iff at least one audience value is in the allowlist.
    pub fn matches_any(&self, allowed: &AudienceSet) -> (r: bool)
        ensures
            r == self@.matches_any(allowed@),
    {
        match self {
            AudienceClaim::One(audience) => {
                assert(self@.values()[0] == audience@);
                allowed.contains(audience.as_str())
            },
            AudienceClaim::Many(audiences) => {
                let mut i: usize = 0;
                while i < audiences.len()
                    invariant
                        i <= audiences.len(),
                        self@.values() == texts(audiences@),
                        forall|j: int|
                            0 <= j < i ==> !allowed@.contains(#[trigger] self@.values()[j]),
                    decreases audiences.len() - i,
                {
                    if allowed.contains(audiences[i].as_str()) {
                        assert(allowed@.contains(self@.values()[i as int]));
                        return true;
                    }
                    i += 1;
                }
                false
            },
        }
    }

    /// The audience, when the claim names exactly one.
    pub fn single(&self) -> (r: Option<&str>)
        ensures
            match r {
                Some(audience) => self@.single() == Some(audience@),
                None => self@.single() is None,
            },
    {
        match self {
            AudienceClaim::One(audience) => Some(audience.as_str()),
            AudienceClaim::Many(audiences) => {
                if audiences.len() == 1 {
                    Some(audiences[0].as_str())
                } else {
                    None
                }
            },
        }
    }

    /// The audiences that the claim names, in order.
    pub fn into_values(self) -> (r: Vec<String>)
        ensures
            texts(r@) == self@.values(),
    {
        match self {
            AudienceClaim::One(audience) => {
                let mut values: Vec<String> = Vec::new();
                values.push(audience);
                assert(texts(values@) =~= seq![audience@]);
                values
            },
            AudienceClaim::Many(audiences) => audiences,
        }
    }
}

} // verus!
