//! Speech presentation of a focused accessible node.
use vstd::prelude::*;

use crate::semantic::{AccessibleNode, Role, State};
use crate::text::{lemma_trim_idempotent, owned, str_eq, trim, trim_seq};

verus! {

#[derive(Debug, Clone, Copy, PartialEq, Eq, Structural)]
pub enum SpeechPriority {
    Background,
    Normal,
    Focus,
    Urgent,
}

#[derive(Debug, Clone, PartialEq, Eq)]
pub struct Utterance {
    pub text: String,
    pub priority: SpeechPriority,
    pub interrupt: bool,
}

/// Adds the trimmed `value` to the token list unless it is empty or already there.
pub open spec fn push_token_spec(tokens: Seq<Seq<char>>, value: Seq<char>) -> Seq<Seq<char>> {
    let t = trim_seq(value);
    if t.len() > 0 && !tokens.contains(t) {
        tokens.push(t)
    } else {
        tokens
    }
}

/// The tokens announced for a node up to its state words, before the
/// description fallback.
pub open spec fn focus_tokens_before_description(node: &AccessibleNode) -> Seq<Seq<char>> {
    let t0 = push_token_spec(Seq::empty(), node.name@);
    let t1 = if node.role != Role::Unknown {
        push_token_spec(t0, node.role.speech_name_spec())
    } else {
        push_token_spec(t0, node.native_role@)
    };
    let t2 = if node.has_state_spec(State::Password) {
        push_token_spec(t1, "protected"@)
    } else if node.role.reports_value_spec() {
        push_token_spec(t1, node.safe_value_spec())
    } else {
        t1
    };
    let t3 = if node.has_state_spec(State::Checked) {
        push_token_spec(t2, "checked"@)
    } else if node.has_state_spec(State::Mixed) {
        push_token_spec(t2, "partially checked"@)
    } else {
        t2
    };
    let t4 = if node.has_state_spec(State::Selected) {
        push_token_spec(t3, "selected"@)
    } else {
        t3
    };
    let t5 = if node.has_state_spec(State::Expanded) {
        push_token_spec(t4, "expanded"@)
    } else if node.has_state_spec(State::Collapsed) {
        push_token_spec(t4, "collapsed"@)
    } else {
        t4
    };
    let t6 = if node.has_state_spec(State::Required) {
        push_token_spec(t5, "required"@)
    } else {
        t5
    };
    let t7 = if node.has_state_spec(State::Invalid) {
        push_token_spec(t6, "invalid"@)
    } else {
        t6
    };
    if node.has_state_spec(State::Disabled) {
        push_token_spec(t7, "disabled"@)
    } else {
        t7
    }
}

/// Every token announced for a node, in order: name, role, value or
/// protection, check, selection, expansion, requirement, validity and
/// availability; the description only when nothing else is said.
pub open spec fn focus_tokens(node: &AccessibleNode) -> Seq<Seq<char>> {
    let t = focus_tokens_before_description(node);
    if t.len() == 0 {
        push_token_spec(t, node.description@)
    } else {
        t
    }
}

/// The tokens joined by `sep`.
pub open spec fn join_seq(list: Seq<Seq<char>>, sep: Seq<char>) -> Seq<char>
    decreases list.len(),
{
    if list.len() == 0 {
        Seq::empty()
    } else if list.len() == 1 {
        list[0]
    } else {
        join_seq(list.drop_last(), sep) + sep + list.last()
    }
}

/// The text spoken when a node receives focus, if there is anything to say.
pub open spec fn focus_text(node: &AccessibleNode) -> Option<Seq<char>> {
    let tokens = focus_tokens(node);
    if tokens.len() == 0 {
        None
    } else {
        Some(join_seq(tokens, ", "@))
    }
}

fn contains_token(tokens: &Vec<String>, value: &str) -> (r: bool)
    ensures
        r == tokens.deep_view().contains(value@),
{
    let mut i: usize = 0;
    while i < tokens.len()
        invariant
            i <= tokens@.len(),
            forall|k: int| 0 <= k < i ==> tokens.deep_view()[k] != value@,
        decreases tokens@.len() - i,
    {
        if str_eq(tokens[i].as_str(), value) {
            assert(tokens.deep_view()[i as int] == value@);
            return true;
        }
        i = i + 1;
    }
    false
}

fn push_token(tokens: &mut Vec<String>, value: &str)
    ensures
        final(tokens).deep_view() == push_token_spec(old(tokens).deep_view(), value@),
{
    let value = trim(value);
    if !value.is_empty() && !contains_token(tokens, value) {
        let ghost before = tokens.deep_view();
        tokens.push(owned(value));
        assert(tokens.deep_view() =~= before.push(value@));
    }
}

/// Joins the tokens with `sep` between consecutive ones.
pub fn join_tokens(tokens: &Vec<String>, sep: &str) -> (r: String)
    ensures
        r@ == join_seq(tokens.deep_view(), sep@),
{
    let ghost all = tokens.deep_view();
    let mut r = String::new();
    let mut i: usize = 0;
    while i < tokens.len()
        invariant
            all == tokens.deep_view(),
            i <= tokens@.len(),
            r@ == join_seq(all.take(i as int), sep@),
        decreases tokens@.len() - i,
    {
        assert(all.take(i + 1).drop_last() =~= all.take(i as int));
        assert(all.take(i + 1).last() == tokens[i as int]@);
        if i != 0 {
            r.append(sep);
        } else {
            assert(all.take(1).len() == 1);
        }
        r.append(tokens[i].as_str());
        i = i + 1;
    }
    assert(all.take(tokens@.len() as int) =~= all);
    r
}

/// The utterance spoken when `node` receives focus, or `None` when the node
/// offers nothing to say. A password field's value is never part of it.
pub fn focus_utterance(node: &AccessibleNode) -> (r: Option<Utterance>)
    ensures
        r is None <==> focus_text(node) is None,
        r matches Some(u) ==> {
            &&& Some(u.text@) == focus_text(node)
            &&& u.priority == SpeechPriority::Focus
            &&& u.interrupt
        },
{
    let mut tokens: Vec<String> = Vec::new();
    assert(tokens.deep_view() =~= Seq::<Seq<char>>::empty());

    push_token(&mut tokens, node.name.as_str());

    if node.role != Role::Unknown {
        push_token(&mut tokens, node.role.speech_name());
    } else {
        push_token(&mut tokens, node.native_role.as_str());
    }

    if node.has_state(State::Password) {
        push_token(&mut tokens, "protected");
    } else if node.role.reports_value_on_focus() {
        push_token(&mut tokens, node.safe_value());
    }

    if node.has_state(State::Checked) {
        push_token(&mut tokens, "checked");
    } else if node.has_state(State::Mixed) {
        push_token(&mut tokens, "partially checked");
    }

    if node.has_state(State::Selected) {
        push_token(&mut tokens, "selected");
    }
    if node.has_state(State::Expanded) {
        push_token(&mut tokens, "expanded");
    } else if node.has_state(State::Collapsed) {
        push_token(&mut tokens, "collapsed");
    }
    if node.has_state(State::Required) {
        push_token(&mut tokens, "required");
    }
    if node.has_state(State::Invalid) {
        push_token(&mut tokens, "invalid");
    }
    if node.has_state(State::Disabled) {
        push_token(&mut tokens, "disabled");
    }
    assert(tokens.deep_view() == focus_tokens_before_description(node));

    if tokens.len() == 0 {
        push_token(&mut tokens, node.description.as_str());
    }
    assert(tokens.deep_view() == focus_tokens(node));

    if tokens.len() == 0 {
        return None;
    }

    Some(
        Utterance {
            text: join_tokens(&tokens, ", "),
            priority: SpeechPriority::Focus,
            interrupt: true,
        },
    )
}

/// Tokens that are trimmed, non-empty and pairwise distinct.
pub open spec fn well_formed_tokens(tokens: Seq<Seq<char>>) -> bool {
    &&& tokens.no_duplicates()
    &&& forall|k: int| 0 <= k < tokens.len() ==> (#[trigger] tokens[k]).len() > 0 && trim_seq(tokens[k]) == tokens[k]
}

proof fn lemma_push_token_well_formed(tokens: Seq<Seq<char>>, value: Seq<char>)
    requires
        well_formed_tokens(tokens),
    ensures
        well_formed_tokens(push_token_spec(tokens, value)),
{
    let t = trim_seq(value);
    lemma_trim_idempotent(value);
    if t.len() > 0 && !tokens.contains(t) {
        let r = tokens.push(t);
        assert forall|i: int, j: int| 0 <= i < r.len() && 0 <= j < r.len() && i != j implies r[i] != r[j] by {
            if i < tokens.len() && j < tokens.len() {
            } else if i < tokens.len() {
                assert(r[j] == t);
                assert(tokens[i] == r[i]);
            } else {
                assert(r[i] == t);
                assert(tokens[j] == r[j]);
            }
        }
        assert forall|k: int| 0 <= k < r.len() implies (#[trigger] r[k]).len() > 0 && trim_seq(r[k]) == r[k] by {
            if k < tokens.len() {
                assert(r[k] == tokens[k]);
            }
        }
    }
}

/// A focus announcement never repeats a token, and every token is trimmed
/// and non-empty.
pub proof fn focus_tokens_are_distinct_and_trimmed(node: &AccessibleNode)
    ensures
        well_formed_tokens(focus_tokens(node)),
{
    let e = Seq::<Seq<char>>::empty();
    assert(well_formed_tokens(e));
    let t0 = push_token_spec(e, node.name@);
    lemma_push_token_well_formed(e, node.name@);
    lemma_push_token_well_formed(t0, node.role.speech_name_spec());
    lemma_push_token_well_formed(t0, node.native_role@);
    let t1 = if node.role != Role::Unknown {
        push_token_spec(t0, node.role.speech_name_spec())
    } else {
        push_token_spec(t0, node.native_role@)
    };
    lemma_push_token_well_formed(t1, "protected"@);
    lemma_push_token_well_formed(t1, node.safe_value_spec());
    let t2 = if node.has_state_spec(State::Password) {
        push_token_spec(t1, "protected"@)
    } else if node.role.reports_value_spec() {
        push_token_spec(t1, node.safe_value_spec())
    } else {
        t1
    };
    lemma_push_token_well_formed(t2, "checked"@);
    lemma_push_token_well_formed(t2, "partially checked"@);
    let t3 = if node.has_state_spec(State::Checked) {
        push_token_spec(t2, "checked"@)
    } else if node.has_state_spec(State::Mixed) {
        push_token_spec(t2, "partially checked"@)
    } else {
        t2
    };
    lemma_push_token_well_formed(t3, "selected"@);
    let t4 = if node.has_state_spec(State::Selected) {
        push_token_spec(t3, "selected"@)
    } else {
        t3
    };
    lemma_push_token_well_formed(t4, "expanded"@);
    lemma_push_token_well_formed(t4, "collapsed"@);
    let t5 = if node.has_state_spec(State::Expanded) {
        push_token_spec(t4, "expanded"@)
    } else if node.has_state_spec(State::Collapsed) {
        push_token_spec(t4, "collapsed"@)
    } else {
        t4
    };
    lemma_push_token_well_formed(t5, "required"@);
    let t6 = if node.has_state_spec(State::Required) {
        push_token_spec(t5, "required"@)
    } else {
        t5
    };
    lemma_push_token_well_formed(t6, "invalid"@);
    let t7 = if node.has_state_spec(State::Invalid) {
        push_token_spec(t6, "invalid"@)
    } else {
        t6
    };
    lemma_push_token_well_formed(t7, "disabled"@);
    let t8 = focus_tokens_before_description(node);
    lemma_push_token_well_formed(t8, node.description@);
}

/// A password field's value has no influence on what is spoken: two nodes
/// that differ only in that value are announced alike.
pub proof fn password_value_is_never_spoken(node: &AccessibleNode, other: &AccessibleNode)
    requires
        node.has_state_spec(State::Password),
        other.states@ == node.states@,
        other.role == node.role,
        other.name@ == node.name@,
        other.native_role@ == node.native_role@,
        other.description@ == node.description@,
    ensures
        focus_text(node) == focus_text(other),
{
    assert(focus_tokens_before_description(node) == focus_tokens_before_description(other));
}

} // verus!
