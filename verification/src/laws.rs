//! What holds of the library as a whole: laws that relate configuration,
//! rules and resolution, each proved from the definitions.

use crate::config::{fault_of, first_fault, ConfigErrorView, TypedAttributes};
use crate::events::{
    RouterRequest, RouterResponse, SubgraphRequest, SubgraphResponse, SupergraphRequest,
    SupergraphResponse,
};
use crate::extendable::{
    custom_members, is_custom, is_pending, pending_members, with_custom_on_request,
    with_custom_on_response, CustomEntry, Extendable,
};
use crate::json::{distinct_names, Member};
use crate::protocol::GetAttribute;
use crate::rules::{
    CustomAttribute, RouterCustomAttribute, SubgraphCustomAttribute, SupergraphCustomAttribute,
};
use crate::value::{or_default, AttributeValueView};
use vstd::prelude::*;

verus! {

/// What is kept of a sequence keeps the order, satisfies the test and comes
/// from the sequence; everything that satisfies the test is kept.
proof fn lemma_filter_members(s: Seq<Member>, keep: spec_fn(Member) -> bool)
    ensures
        forall|k: int|
            0 <= k < s.filter(keep).len() ==> keep(#[trigger] s.filter(keep)[k]) && s.contains(
                s.filter(keep)[k],
            ),
        forall|i: int| 0 <= i < s.len() && keep(s[i]) ==> s.filter(keep).contains(#[trigger] s[i]),
    decreases s.len(),
{
    reveal(Seq::filter);
    if s.len() > 0 {
        let front = s.drop_last();
        lemma_filter_members(front, keep);
        assert forall|k: int| 0 <= k < s.filter(keep).len() implies keep(
            #[trigger] s.filter(keep)[k],
        ) && s.contains(s.filter(keep)[k]) by {
            if k < front.filter(keep).len() {
                let x = front.filter(keep)[k];
                assert(front.contains(x));
                let j = choose|j: int| 0 <= j < front.len() && front[j] == x;
                assert(s[j] == x);
            } else {
                assert(s[s.len() - 1] == s.last());
            }
        }
        assert forall|i: int| 0 <= i < s.len() && keep(s[i]) implies s.filter(keep).contains(
            #[trigger] s[i],
        ) by {
            if i < front.len() {
                assert(front[i] == s[i]);
                assert(front.filter(keep).contains(front[i]));
                let k = choose|k: int|
                    0 <= k < front.filter(keep).len() && front.filter(keep)[k] == front[i];
                assert(s.filter(keep)[k] == s[i]);
            } else {
                assert(s.filter(keep)[s.filter(keep).len() - 1] == s[i]);
            }
        }
    }
}

/// Whether `a` stands before `b` in `s`.
spec fn in_order(s: Seq<Member>, a: Member, b: Member) -> bool {
    exists|i: int, j: int| 0 <= i < j < s.len() && s[i] == a && s[j] == b
}

/// What is kept of a sequence stands in the order in which it stood there.
proof fn lemma_filter_keeps_order(s: Seq<Member>, keep: spec_fn(Member) -> bool)
    ensures
        forall|k: int, n: int|
            0 <= k < n < s.filter(keep).len() ==> in_order(
                s,
                #[trigger] s.filter(keep)[k],
                #[trigger] s.filter(keep)[n],
            ),
    decreases s.len(),
{
    reveal(Seq::filter);
    if s.len() > 0 {
        let front = s.drop_last();
        let kept = front.filter(keep);
        lemma_filter_keeps_order(front, keep);
        lemma_filter_members(front, keep);
        assert forall|k: int, n: int| 0 <= k < n < s.filter(keep).len() implies in_order(
            s,
            #[trigger] s.filter(keep)[k],
            #[trigger] s.filter(keep)[n],
        ) by {
            if n < kept.len() {
                assert(in_order(front, kept[k], kept[n]));
                let (i, j) = choose|i: int, j: int|
                    0 <= i < j < front.len() && front[i] == kept[k] && front[j] == kept[n];
                assert(s[i] == kept[k] && s[j] == kept[n]);
            } else {
                assert(front.contains(kept[k]));
                let i = choose|i: int| 0 <= i < front.len() && front[i] == kept[k];
                assert(s[i] == kept[k] && s[s.len() - 1] == s.filter(keep)[n]);
            }
        }
    }
}

/// Members without a fault have none that is first, and the other way round.
proof fn lemma_first_fault<A: TypedAttributes>(members: Seq<Member>)
    ensures
        first_fault::<A>(members) is None <==> forall|i: int|
            0 <= i < members.len() ==> fault_of::<A>(#[trigger] members[i]) is None,
        first_fault::<A>(members) matches Some(e) ==> exists|i: int|
            0 <= i < members.len() && fault_of::<A>(#[trigger] members[i]) == Some(e),
    decreases members.len(),
{
    if members.len() > 0 {
        let rest = members.drop_first();
        lemma_first_fault::<A>(rest);
        if fault_of::<A>(members[0]) is None {
            assert forall|i: int| 0 <= i < rest.len() implies rest[i] == members[i + 1] by {}
            if first_fault::<A>(rest) is None {
                assert forall|i: int| 0 <= i < members.len() implies fault_of::<A>(
                    #[trigger] members[i],
                ) is None by {
                    if i > 0 {
                        assert(rest[i - 1] == members[i]);
                    }
                }
            } else {
                let e = first_fault::<A>(rest).unwrap();
                let i = choose|i: int|
                    0 <= i < rest.len() && fault_of::<A>(#[trigger] rest[i]) == Some(e);
                assert(fault_of::<A>(members[i + 1]) == Some(e));
            }
        }
    }
}

/// The first fault of two sequences in a row is that of the first, or else
/// that of the second.
proof fn lemma_first_fault_add<A: TypedAttributes>(a: Seq<Member>, b: Seq<Member>)
    ensures
        first_fault::<A>(a + b) == match first_fault::<A>(a) {
            Some(e) => Some(e),
            None => first_fault::<A>(b),
        },
    decreases a.len(),
{
    if a.len() == 0 {
        assert(a + b == b);
    } else {
        assert((a + b).drop_first() == a.drop_first() + b);
        assert((a + b)[0] == a[0]);
        lemma_first_fault_add::<A>(a.drop_first(), b);
    }
}

impl<Att, Ext> Extendable<Att, Ext> where Att: Default + TypedAttributes, Ext: CustomAttribute {
    /// Whether a custom attribute stands under `key`.
    pub open spec fn has_custom(&self, key: Seq<char>) -> bool {
        exists|j: int| 0 <= j < self.custom@.len() && (#[trigger] self.custom@[j]).key@ == key
    }
}

/// Whether `key` is left to the typed set by a configuration with the given
/// members.
pub open spec fn has_typed<Ext: CustomAttribute>(members: Seq<Member>, key: Seq<char>) -> bool {
    exists|k: int|
        0 <= k < pending_members::<Ext>(members).len() && (#[trigger] pending_members::<Ext>(
            members,
        )[k]).name@ == key
}

/// Disjointness: in attributes read from a mapping, every key of the
/// mapping stands in exactly one of the two parts. It is a custom attribute
/// exactly when its value denotes a rule; otherwise it is left to the typed
/// set, and is then the name of one of its attributes.
pub proof fn law_disjoint<Att, Ext>(
    attributes: Extendable<Att, Ext>,
    members: Seq<Member>,
    i: int,
) where Att: Default + TypedAttributes, Ext: CustomAttribute
    requires
        distinct_names(members),
        attributes.denoted_by(members),
        0 <= i < members.len(),
    ensures
        attributes.has_custom(members[i].name@) <==> Ext::accepts(members[i].value),
        has_typed::<Ext>(members, members[i].name@) <==> !Ext::accepts(members[i].value),
        attributes.has_custom(members[i].name@) != has_typed::<Ext>(members, members[i].name@),
        has_typed::<Ext>(members, members[i].name@) ==> Att::names(members[i].name@),
{
    let key = members[i].name@;
    let custom = custom_members::<Ext>(members);
    let pending = pending_members::<Ext>(members);
    lemma_filter_members(members, is_custom::<Ext>());
    lemma_filter_members(members, is_pending::<Ext>());
    lemma_first_fault::<Att>(pending);
    if Ext::accepts(members[i].value) {
        assert(is_custom::<Ext>()(members[i]));
        assert(custom.contains(members[i]));
        let k = choose|k: int| 0 <= k < custom.len() && custom[k] == members[i];
        assert(attributes.custom@[k].key@ == key);
        assert(attributes.has_custom(key));
        if has_typed::<Ext>(members, key) {
            let k = choose|k: int| 0 <= k < pending.len() && (#[trigger] pending[k]).name@ == key;
            assert(is_pending::<Ext>()(pending[k]) && members.contains(pending[k]));
            let j = choose|j: int| 0 <= j < members.len() && members[j] == pending[k];
            assert(j == i);
        }
    } else {
        assert(is_pending::<Ext>()(members[i]));
        assert(pending.contains(members[i]));
        let k = choose|k: int| 0 <= k < pending.len() && pending[k] == members[i];
        assert(pending[k].name@ == key);
        assert(has_typed::<Ext>(members, key));
        assert(fault_of::<Att>(pending[k]) is None);
        if attributes.has_custom(key) {
            let j = choose|j: int|
                0 <= j < attributes.custom@.len() && (#[trigger] attributes.custom@[j]).key@ == key;
            assert(is_custom::<Ext>()(custom[j]) && members.contains(custom[j]));
            let n = choose|n: int| 0 <= n < members.len() && members[n] == custom[j];
            assert(n == i);
        }
    }
}

/// The custom attributes read from a mapping stand under distinct keys: no
/// key of the mapping gives two of them.
pub proof fn law_custom_keys_distinct<Att, Ext>(
    attributes: Extendable<Att, Ext>,
    members: Seq<Member>,
) where Att: Default + TypedAttributes, Ext: CustomAttribute
    requires
        distinct_names(members),
        attributes.denoted_by(members),
    ensures
        forall|i: int, j: int|
            0 <= i < j < attributes.custom@.len() ==> (#[trigger] attributes.custom@[i]).key@ != (
            #[trigger] attributes.custom@[j]).key@,
{
    let custom = custom_members::<Ext>(members);
    lemma_filter_keeps_order(members, is_custom::<Ext>());
    assert forall|i: int, j: int| 0 <= i < j < attributes.custom@.len() implies (
    #[trigger] attributes.custom@[i]).key@ != (#[trigger] attributes.custom@[j]).key@ by {
        assert(in_order(members, custom[i], custom[j]));
        let (a, b) = choose|a: int, b: int|
            0 <= a < b < members.len() && members[a] == custom[i] && members[b] == custom[j];
        assert(members[a].name@ != members[b].name@);
    }
}

/// Unknown-field rejection: a mapping with a key that is not the name of an
/// attribute of the typed set, and whose value denotes no custom attribute,
/// is refused. The refusal names a key of the mapping that is left to the
/// typed set and is no switch of it; it names the given key where no
/// earlier member is at fault.
pub proof fn law_unknown_field_rejected<Att, Ext>(members: Seq<Member>, i: int) where
    Att: Default + TypedAttributes,
    Ext: CustomAttribute,

    requires
        0 <= i < members.len(),
        !Ext::accepts(members[i].value),
        !Att::names(members[i].name@),
    ensures
        first_fault::<Att>(pending_members::<Ext>(members)) is Some,
        exists|k: int|
            0 <= k < members.len() && !Ext::accepts(members[k].value) && first_fault::<Att>(
                pending_members::<Ext>(members),
            ) == fault_of::<Att>(#[trigger] members[k]),
        (forall|k: int|
            0 <= k < i ==> Ext::accepts(members[k].value) || fault_of::<Att>(
                #[trigger] members[k],
            ) is None) ==> first_fault::<Att>(pending_members::<Ext>(members)) == Some(
            ConfigErrorView::UnknownField { key: members[i].name@ },
        ),
{
    let keep = is_pending::<Ext>();
    let pending = pending_members::<Ext>(members);
    lemma_filter_members(members, keep);
    lemma_first_fault::<Att>(pending);
    assert(keep(members[i]));
    assert(pending.contains(members[i]));
    let at = choose|k: int| 0 <= k < pending.len() && pending[k] == members[i];
    assert(fault_of::<Att>(pending[at]) is Some);
    let e = first_fault::<Att>(pending).unwrap();
    let f = choose|k: int| 0 <= k < pending.len() && fault_of::<Att>(#[trigger] pending[k]) == Some(e);
    assert(keep(pending[f]) && members.contains(pending[f]));
    let g = choose|k: int| 0 <= k < members.len() && members[k] == pending[f];
    assert(first_fault::<Att>(pending) == fault_of::<Att>(members[g]));
    if forall|k: int|
        0 <= k < i ==> Ext::accepts(members[k].value) || fault_of::<Att>(#[trigger] members[k])
            is None {
        let before = members.take(i);
        let after = members.skip(i + 1);
        let this = seq![members[i]];
        assert(members == before + this + after);
        Seq::filter_distributes_over_add(before + this, after, keep);
        Seq::filter_distributes_over_add(before, this, keep);
        assert(this.filter(keep) == this) by {
            reveal(Seq::filter);
            assert(this.drop_last().len() == 0);
            assert(this.drop_last().filter(keep) == Seq::<Member>::empty());
            assert(this.last() == members[i]);
        }
        lemma_filter_members(before, keep);
        lemma_first_fault::<Att>(before.filter(keep));
        assert forall|k: int| 0 <= k < before.filter(keep).len() implies fault_of::<Att>(
            #[trigger] before.filter(keep)[k],
        ) is None by {
            let x = before.filter(keep)[k];
            assert(keep(x) && before.contains(x));
            let j = choose|j: int| 0 <= j < before.len() && before[j] == x;
            assert(members[j] == x);
        }
        lemma_first_fault_add::<Att>(before.filter(keep), this + after.filter(keep));
        lemma_first_fault_add::<Att>(this, after.filter(keep));
        assert(before.filter(keep) + this + after.filter(keep) == before.filter(keep) + (this
            + after.filter(keep)));
        assert(first_fault::<Att>(this) == fault_of::<Att>(members[i])) by {
            assert(this.drop_first().len() == 0);
        }
    }
}

/// Fallback order: a rule with a source and a default resolves to what the
/// source yields where it yields something, whatever the default; to the
/// default where the source yields nothing; and to nothing where there is
/// no default either.
pub proof fn law_fallback_order(
    found: Option<AttributeValueView>,
    default: Option<AttributeValueView>,
)
    ensures
        found is Some ==> or_default(found, default) == found,
        found is None ==> or_default(found, default) == default,
        found is None && default is None ==> or_default(found, default) is None,
{
}

/// A key under which no rule resolves to a value for a request, and which
/// the typed set did not resolve, is absent from what the stage resolves:
/// it is not present with an empty value.
pub proof fn law_unresolved_is_absent_on_request<Ext, Request, Response>(
    base: Map<Seq<char>, AttributeValueView>,
    custom: Seq<CustomEntry<Ext>>,
    request: &Request,
    key: Seq<char>,
) where Ext: GetAttribute<Request, Response>
    requires
        !base.contains_key(key),
        forall|j: int|
            0 <= j < custom.len() && (#[trigger] custom[j]).key@ == key
                ==> custom[j].rule.request_value(request) is None,
    ensures
        !with_custom_on_request(base, custom, request).contains_key(key),
    decreases custom.len(),
{
    if custom.len() > 0 {
        let front = custom.drop_last();
        assert forall|j: int| 0 <= j < front.len() && (#[trigger] front[j]).key@ == key implies front[j].rule.request_value(
            request,
        ) is None by {
            assert(front[j] == custom[j]);
        }
        law_unresolved_is_absent_on_request(base, front, request, key);
        assert(custom.last() == custom[custom.len() - 1]);
    }
}

/// A key under which no rule resolves to a value for a response, and which
/// the typed set did not resolve, is absent from what the stage resolves.
pub proof fn law_unresolved_is_absent_on_response<Ext, Request, Response>(
    base: Map<Seq<char>, AttributeValueView>,
    custom: Seq<CustomEntry<Ext>>,
    response: &Response,
    key: Seq<char>,
) where Ext: GetAttribute<Request, Response>
    requires
        !base.contains_key(key),
        forall|j: int|
            0 <= j < custom.len() && (#[trigger] custom[j]).key@ == key
                ==> custom[j].rule.response_value(response) is None,
    ensures
        !with_custom_on_response(base, custom, response).contains_key(key),
    decreases custom.len(),
{
    if custom.len() > 0 {
        let front = custom.drop_last();
        assert forall|j: int| 0 <= j < front.len() && (#[trigger] front[j]).key@ == key implies front[j].rule.response_value(
            response,
        ) is None by {
            assert(front[j] == custom[j]);
        }
        law_unresolved_is_absent_on_response(base, front, response, key);
        assert(custom.last() == custom[custom.len() - 1]);
    }
}

/// A rule that resolves to a value for a request contributes it under its
/// key, unless a later rule under the same key resolves to one too.
pub proof fn law_resolved_is_present_on_request<Ext, Request, Response>(
    base: Map<Seq<char>, AttributeValueView>,
    custom: Seq<CustomEntry<Ext>>,
    request: &Request,
    i: int,
) where Ext: GetAttribute<Request, Response>
    requires
        0 <= i < custom.len(),
        custom[i].rule.request_value(request) is Some,
        forall|j: int|
            i < j < custom.len() && (#[trigger] custom[j]).key@ == custom[i].key@
                ==> custom[j].rule.request_value(request) is None,
    ensures
        with_custom_on_request(base, custom, request).contains_key(custom[i].key@),
        with_custom_on_request(base, custom, request)[custom[i].key@]
            == custom[i].rule.request_value(request).unwrap(),
    decreases custom.len(),
{
    let front = custom.drop_last();
    assert(custom.last() == custom[custom.len() - 1]);
    if i < custom.len() - 1 {
        assert(front[i] == custom[i]);
        assert forall|j: int| i < j < front.len() && (#[trigger] front[j]).key@ == front[i].key@ implies front[j].rule.request_value(
            request,
        ) is None by {
            assert(front[j] == custom[j]);
        }
        law_resolved_is_present_on_request(base, front, request, i);
    }
}

/// A rule that resolves to a value for a response contributes it under its
/// key, unless a later rule under the same key resolves to one too.
pub proof fn law_resolved_is_present_on_response<Ext, Request, Response>(
    base: Map<Seq<char>, AttributeValueView>,
    custom: Seq<CustomEntry<Ext>>,
    response: &Response,
    i: int,
) where Ext: GetAttribute<Request, Response>
    requires
        0 <= i < custom.len(),
        custom[i].rule.response_value(response) is Some,
        forall|j: int|
            i < j < custom.len() && (#[trigger] custom[j]).key@ == custom[i].key@
                ==> custom[j].rule.response_value(response) is None,
    ensures
        with_custom_on_response(base, custom, response).contains_key(custom[i].key@),
        with_custom_on_response(base, custom, response)[custom[i].key@]
            == custom[i].rule.response_value(response).unwrap(),
    decreases custom.len(),
{
    let front = custom.drop_last();
    assert(custom.last() == custom[custom.len() - 1]);
    if i < custom.len() - 1 {
        assert(front[i] == custom[i]);
        assert forall|j: int| i < j < front.len() && (#[trigger] front[j]).key@ == front[i].key@ implies front[j].rule.response_value(
            response,
        ) is None by {
            assert(front[j] == custom[j]);
        }
        law_resolved_is_present_on_response(base, front, response, i);
    }
}

/// Stage isolation at the edge-facing stage: a rule that reads a response
/// header resolves to nothing for a request, and one that reads a request
/// header resolves to nothing for a response.
pub proof fn law_stage_isolation_router(
    rule: RouterCustomAttribute,
    request: &RouterRequest,
    response: &RouterResponse,
)
    ensures
        rule is ResponseHeader ==> rule.request_value(request) is None,
        rule is RequestHeader ==> rule.response_value(response) is None,
        rule is ResponseContext ==> rule.request_value(request) is None,
{
}

/// Stage isolation at the federated-query stage.
pub proof fn law_stage_isolation_supergraph(
    rule: SupergraphCustomAttribute,
    request: &SupergraphRequest,
    response: &SupergraphResponse,
)
    ensures
        rule is ResponseHeader ==> rule.request_value(request) is None,
        rule is RequestHeader ==> rule.response_value(response) is None,
        rule is ResponseContext ==> rule.request_value(request) is None,
        rule is RequestContext ==> rule.response_value(response) is None,
        rule is Query ==> rule.response_value(response) is None,
{
}

/// Stage isolation at the downstream-service stage.
pub proof fn law_stage_isolation_subgraph(
    rule: SubgraphCustomAttribute,
    request: &SubgraphRequest,
    response: &SubgraphResponse,
)
    ensures
        rule is SubgraphResponseHeader ==> rule.request_value(request) is None,
        rule is SubgraphRequestHeader ==> rule.response_value(response) is None,
        rule is SupergraphRequestHeader ==> rule.response_value(response) is None,
        rule is SubgraphResponseBody ==> rule.request_value(request) is None,
        rule is ResponseContext ==> rule.request_value(request) is None,
        rule is RequestContext ==> rule.response_value(response) is None,
        rule is SupergraphResponseHeader ==> rule.request_value(request) is None,
        rule is SubgraphQuery ==> rule.response_value(response) is None,
{
}

} // verus!
