use vstd::prelude::*;

verus! {

/// Opening minus closing parentheses in `s`.
pub open spec fn paren_depth(s: Seq<char>) -> int
    decreases s.len(),
{
    if s.len() == 0 {
        0
    } else {
        let step: int = if s.last() == '(' {
            1
        } else if s.last() == ')' {
            -1
        } else {
            0
        };
        paren_depth(s.drop_last()) + step
    }
}

/// Every parenthesis of `s` is matched: no prefix closes more than it opens,
/// and the whole closes all it opens.
pub open spec fn parens_balanced(s: Seq<char>) -> bool {
    &&& paren_depth(s) == 0
    &&& forall|i: int| 0 <= i <= s.len() ==> paren_depth(#[trigger] s.take(i)) >= 0
}

/// No two commas stand next to each other in `s`.
pub open spec fn no_double_comma(s: Seq<char>) -> bool {
    forall|i: int| 0 <= i < s.len() - 1 ==> !(#[trigger] s[i] == ',' && s[i + 1] == ',')
}

/// `s` neither starts nor ends with a comma, holds no two adjacent commas,
/// and its parentheses are balanced.
pub open spec fn well_separated(s: Seq<char>) -> bool {
    &&& s.len() > 0 ==> s[0] != ','
    &&& s.len() > 0 ==> s.last() != ','
    &&& no_double_comma(s)
    &&& parens_balanced(s)
}

/// `s` holds no comma and no parenthesis.
pub open spec fn is_plain(s: Seq<char>) -> bool {
    forall|i: int| 0 <= i < s.len() ==> #[trigger] s[i] != ',' && s[i] != '(' && s[i] != ')'
}

pub proof fn lemma_depth_concat(a: Seq<char>, b: Seq<char>)
    ensures
        paren_depth(a + b) == paren_depth(a) + paren_depth(b),
    decreases b.len(),
{
    if b.len() == 0 {
        assert(a + b =~= a);
    } else {
        assert((a + b).drop_last() =~= a + b.drop_last());
        lemma_depth_concat(a, b.drop_last());
    }
}

pub proof fn lemma_balanced_concat(a: Seq<char>, b: Seq<char>)
    requires
        parens_balanced(a),
        parens_balanced(b),
    ensures
        parens_balanced(a + b),
{
    lemma_depth_concat(a, b);
    assert forall|i: int| 0 <= i <= (a + b).len() implies paren_depth(#[trigger] (a + b).take(i))
        >= 0 by {
        if i <= a.len() {
            assert((a + b).take(i) =~= a.take(i));
        } else {
            assert((a + b).take(i) =~= a + b.take(i - a.len()));
            lemma_depth_concat(a, b.take(i - a.len()));
        }
    }
}

pub proof fn lemma_plain_depth(s: Seq<char>)
    requires
        is_plain(s),
    ensures
        paren_depth(s) == 0,
    decreases s.len(),
{
    if s.len() > 0 {
        assert forall|i: int| 0 <= i < s.len() - 1 implies #[trigger] s.drop_last()[i] != ','
            && s.drop_last()[i] != '(' && s.drop_last()[i] != ')' by {
            assert(s.drop_last()[i] == s[i]);
        }
        lemma_plain_depth(s.drop_last());
    }
}

pub proof fn lemma_plain_well_separated(s: Seq<char>)
    requires
        is_plain(s),
    ensures
        well_separated(s),
{
    lemma_plain_depth(s);
    assert forall|i: int| 0 <= i <= s.len() implies paren_depth(#[trigger] s.take(i)) >= 0 by {
        assert(is_plain(s.take(i)));
        lemma_plain_depth(s.take(i));
    }
}

/// Two well-separated strings written one after the other stay well separated.
pub proof fn lemma_concat_well_separated(a: Seq<char>, b: Seq<char>)
    requires
        well_separated(a),
        well_separated(b),
    ensures
        well_separated(a + b),
{
    lemma_balanced_concat(a, b);
    let s = a + b;
    assert forall|i: int| 0 <= i < s.len() - 1 implies !(#[trigger] s[i] == ',' && s[i + 1]
        == ',') by {
        if i + 1 < a.len() {
            assert(s[i] == a[i] && s[i + 1] == a[i + 1]);
        } else if i + 1 == a.len() {
            assert(s[i] == a.last());
        } else {
            assert(s[i] == b[i - a.len()] && s[i + 1] == b[i + 1 - a.len()]);
        }
    }
    if a.len() == 0 {
        assert(s =~= b);
    }
    if b.len() == 0 {
        assert(s =~= a);
    }
}

/// Two non-empty well-separated strings joined by one comma stay well separated.
pub proof fn lemma_comma_join_well_separated(a: Seq<char>, b: Seq<char>)
    requires
        well_separated(a),
        well_separated(b),
        a.len() > 0,
        b.len() > 0,
    ensures
        well_separated(a + seq![','] + b),
{
    let c = seq![','];
    assert(paren_depth(Seq::<char>::empty()) == 0);
    assert(c.drop_last() =~= Seq::<char>::empty());
    assert(paren_depth(c) == 0);
    assert(parens_balanced(c)) by {
        assert forall|i: int| 0 <= i <= c.len() implies paren_depth(#[trigger] c.take(i)) >= 0 by {
            if i == 0 {
                assert(c.take(i) =~= Seq::<char>::empty());
            } else {
                assert(c.take(i) =~= c);
            }
        }
    }
    lemma_balanced_concat(a, c);
    lemma_balanced_concat(a + c, b);
    let s = a + c + b;
    assert forall|i: int| 0 <= i < s.len() - 1 implies !(#[trigger] s[i] == ',' && s[i + 1]
        == ',') by {
        if i + 1 < a.len() {
            assert(s[i] == a[i] && s[i + 1] == a[i + 1]);
        } else if i + 1 == a.len() {
            assert(s[i] == a.last());
        } else if i == a.len() {
            assert(s[i + 1] == b[0]);
        } else {
            assert(s[i] == b[i - a.len() - 1] && s[i + 1] == b[i - a.len()]);
        }
    }
    assert(s[0] == a[0]);
    assert(s.last() == b.last());
}

/// A non-empty well-separated string in parentheses stays well separated.
pub proof fn lemma_wrap_well_separated(g: Seq<char>)
    requires
        well_separated(g),
        g.len() > 0,
    ensures
        well_separated(seq!['('] + g + seq![')']),
{
    let s = seq!['('] + g + seq![')'];
    lemma_depth_concat(seq!['('], g);
    lemma_depth_concat(seq!['('] + g, seq![')']);
    assert(paren_depth(Seq::<char>::empty()) == 0);
    assert(paren_depth(seq!['(']) == 1) by {
        assert(seq!['('].drop_last() =~= Seq::<char>::empty());
    }
    assert(paren_depth(seq![')']) == -1) by {
        assert(seq![')'].drop_last() =~= Seq::<char>::empty());
    }
    assert forall|i: int| 0 <= i <= s.len() implies paren_depth(#[trigger] s.take(i)) >= 0 by {
        if i == 0 {
            assert(s.take(i) =~= Seq::<char>::empty());
        } else if i <= g.len() + 1 {
            assert(s.take(i) =~= seq!['('] + g.take(i - 1));
            lemma_depth_concat(seq!['('], g.take(i - 1));
        } else {
            assert(s.take(i) =~= s);
        }
    }
    assert forall|i: int| 0 <= i < s.len() - 1 implies !(#[trigger] s[i] == ',' && s[i + 1]
        == ',') by {
        if i == 0 {
        } else if i < g.len() {
            assert(s[i] == g[i - 1] && s[i + 1] == g[i]);
        } else {
            assert(s[i + 1] == ')');
        }
    }
}

} // verus!
