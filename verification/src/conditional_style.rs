//! Conditional style rules: an ordered list of (environment condition, style)
//! entries and the selector that picks one style per prompt render.

use vstd::prelude::*;

use crate::context::{env_lookup, Context};

verus! {

/// The characters that `str::to_lowercase` produces for the characters `s`.
pub uninterp spec fn lower_of(s: Seq<char>) -> Seq<char>;

/// Relies on `str::to_lowercase`: the result depends on the characters of the
/// input alone, so equal inputs always lower to equal outputs.
#[verifier::external_body]
fn lowercase(s: &str) -> (r: String)
    ensures
        r@ == lower_of(s@),
{
    s.to_lowercase()
}

/// The comparison a conditional style rule applies to the value of its
/// environment variable.
#[derive(Clone, Debug, PartialEq)]
pub enum StarshipConditionalStyleOperator {
    Equal,
    Exists,
}

/// What `invoke` decides: equality of both sides for `Equal` — two absent
/// sides count as equal — and mere presence of the left side for `Exists`.
pub open spec fn spec_invoke(
    op: StarshipConditionalStyleOperator,
    left_hand_side: Option<Seq<char>>,
    right_hand_side: Option<Seq<char>>,
) -> bool {
    match op {
        StarshipConditionalStyleOperator::Equal => left_hand_side == right_hand_side,
        StarshipConditionalStyleOperator::Exists => left_hand_side is Some,
    }
}

/// The operator a configuration token selects: `exists` picks `Exists`,
/// `equal` — and, as a documented quirk, any unrecognized token — picks
/// `Equal`.
pub open spec fn spec_operator_for_token(token: Seq<char>) -> StarshipConditionalStyleOperator {
    if token == "exists"@ {
        StarshipConditionalStyleOperator::Exists
    } else {
        StarshipConditionalStyleOperator::Equal
    }
}

impl StarshipConditionalStyleOperator {
    /// Applies the operator to the resolved environment value and the rule's
    /// expected value.
    pub fn invoke(
        &self,
        left_hand_side: Option<String>,
        right_hand_side: Option<String>,
    ) -> (r: bool)
        ensures
            r == spec_invoke(*self, left_hand_side.deep_view(), right_hand_side.deep_view()),
    {
        match self {
            StarshipConditionalStyleOperator::Equal => {
                match (&left_hand_side, &right_hand_side) {
                    (Some(l), Some(rv)) => *l == *rv,
                    (None, None) => true,
                    _ => false,
                }
            },
            StarshipConditionalStyleOperator::Exists => left_hand_side.is_some(),
        }
    }

    /// The operator named by a configuration token, lowered first; an
    /// unrecognized token falls back to `Equal` instead of failing.
    pub fn from_token(token: &str) -> (r: StarshipConditionalStyleOperator)
        ensures
            r == spec_operator_for_token(lower_of(token@)),
    {
        let lowered = lowercase(token);
        let exists_token = String::from_str("exists");
        if lowered == exists_token {
            StarshipConditionalStyleOperator::Exists
        } else {
            StarshipConditionalStyleOperator::Equal
        }
    }

    /// The configuration token that names this operator.
    pub fn token(&self) -> (r: String)
        ensures
            r@ == (match *self {
                StarshipConditionalStyleOperator::Equal => "equal"@,
                StarshipConditionalStyleOperator::Exists => "exists"@,
            }),
    {
        match self {
            StarshipConditionalStyleOperator::Equal => String::from_str("equal"),
            StarshipConditionalStyleOperator::Exists => String::from_str("exists"),
        }
    }
}

/// One entry of an ordered rule list: a rule with no operator is an
/// unconditional match and acts as a catch-all.
#[derive(Clone, Debug, PartialEq)]
pub struct StarshipConditionalStyle {
    pub env: Option<String>,
    pub operator: Option<StarshipConditionalStyleOperator>,
    pub expected_value: Option<String>,
    pub style: String,
}

impl Default for StarshipConditionalStyle {
    /// A rule with nothing set: it matches unconditionally and carries the
    /// empty style.
    fn default() -> (r: Self)
        ensures
            r.env is None,
            r.operator is None,
            r.expected_value is None,
            r.style@ == Seq::<char>::empty(),
    {
        StarshipConditionalStyle {
            env: None,
            operator: None,
            expected_value: None,
            style: String::new(),
        }
    }
}

/// The left-hand value a rule resolves: the environment value of its variable,
/// absent when the rule names no variable or the variable is unset.
pub open spec fn spec_env_value(rule: StarshipConditionalStyle, context: Context) -> Option<
    Seq<char>,
> {
    match rule.env {
        Some(name) => env_lookup(context.env@, name@),
        None => None,
    }
}

/// Whether a rule matches under `context`: its operator applied to the
/// resolved environment value and the expected value, or unconditionally true
/// for a rule without an operator.
pub open spec fn spec_should_apply(rule: StarshipConditionalStyle, context: Context) -> bool {
    match rule.operator {
        Some(op) => spec_invoke(op, spec_env_value(rule, context), rule.expected_value.deep_view()),
        None => true,
    }
}

/// The style an ordered rule list selects: the first matching rule's style;
/// the last rule's style when none matches but the list is non-empty; the
/// empty style for an empty list.
pub open spec fn spec_select_style(context: Context, rules: Seq<StarshipConditionalStyle>) -> Seq<
    char,
>
    decreases rules.len(),
{
    if rules.len() == 0 {
        Seq::<char>::empty()
    } else if spec_should_apply(rules[0], context) {
        rules[0].style@
    } else if rules.len() == 1 {
        rules[0].style@
    } else {
        spec_select_style(context, rules.drop_first())
    }
}

impl StarshipConditionalStyle {
    /// Whether this rule matches under `context`.
    pub fn should_apply(&self, context: &Context) -> (r: bool)
        ensures
            r == spec_should_apply(*self, *context),
    {
        let env_value: Option<String> = match &self.env {
            Some(name) => context.get_env(name),
            None => None,
        };
        match &self.operator {
            Some(op) => {
                let expected: Option<String> = match &self.expected_value {
                    Some(v) => Some(v.clone()),
                    None => None,
                };
                op.invoke(env_value, expected)
            },
            None => true,
        }
    }
}

/// Picks one style from an ordered rule list: the first rule whose predicate
/// holds — or which has no operator at all — wins; with no match a non-empty
/// list falls back to its last rule's style, and an empty list yields the
/// empty string.
pub fn select_style(context: &Context, rules: &Vec<StarshipConditionalStyle>) -> (r: String)
    ensures
        r@ == spec_select_style(*context, rules@),
{
    let n = rules.len();
    let mut i: usize = 0;
    proof {
        assert(rules@.skip(0) =~= rules@);
    }
    while i < n
        invariant
            n == rules@.len(),
            i <= n,
            spec_select_style(*context, rules@) == (if i < n {
                spec_select_style(*context, rules@.skip(i as int))
            } else if n > 0 {
                rules@[n - 1].style@
            } else {
                Seq::<char>::empty()
            }),
        decreases n - i,
    {
        proof {
            assert(rules@.skip(i as int)[0] == rules@[i as int]);
            assert(rules@.skip(i as int).drop_first() =~= rules@.skip(i as int + 1));
        }
        let rule = &rules[i];
        if rule.should_apply(context) {
            return rule.style.clone();
        }
        i = i + 1;
    }
    if n > 0 {
        let last = &rules[n - 1];
        last.style.clone()
    } else {
        String::new()
    }
}

/// An empty rule list selects the empty style.
pub proof fn lemma_select_style_empty(context: Context)
    ensures
        spec_select_style(context, Seq::<StarshipConditionalStyle>::empty()) == Seq::<
            char,
        >::empty(),
{
}

/// When no rule's predicate holds and the list is non-empty, the last rule's
/// style is selected even though that rule's own predicate is false.
pub proof fn lemma_select_style_fallback(context: Context, rules: Seq<StarshipConditionalStyle>)
    requires
        rules.len() > 0,
        forall|i: int| 0 <= i < rules.len() ==> !spec_should_apply(#[trigger] rules[i], context),
    ensures
        spec_select_style(context, rules) == rules.last().style@,
    decreases rules.len(),
{
    if rules.len() > 1 {
        assert forall|i: int| 0 <= i < rules.drop_first().len() implies !spec_should_apply(
            #[trigger] rules.drop_first()[i],
            context,
        ) by {
            assert(rules.drop_first()[i] == rules[i + 1]);
        }
        lemma_select_style_fallback(context, rules.drop_first());
        assert(rules.drop_first().last() == rules.last());
    }
}

/// The exists operator matches on any present value — the empty string
/// included — whatever the expected value, and never matches an absent one.
pub proof fn lemma_exists_operator(value: Seq<char>, expected: Option<Seq<char>>)
    ensures
        spec_invoke(StarshipConditionalStyleOperator::Exists, Some(value), expected),
        !spec_invoke(StarshipConditionalStyleOperator::Exists, None::<Seq<char>>, expected),
{
}

/// The equal operator counts two absent sides as equal.
pub proof fn lemma_equal_operator_absent()
    ensures
        spec_invoke(
            StarshipConditionalStyleOperator::Equal,
            None::<Seq<char>>,
            None::<Seq<char>>,
        ),
{
}

} // verus!
