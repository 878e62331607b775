//! Tool calls arrive from the model in pieces. Each piece names the call it
//! belongs to by a stream index; the pieces of one call are joined in the
//! order in which they arrive, and the calls are kept in the order of their
//! indices.
use vstd::prelude::*;
use vstd::string::StringExecFns;
use crate::models::{option_text, tool_calls_view, FunctionCall, ToolCall, ToolCallView};

verus! {

/// One piece of a tool call, as the stream delivers it.
#[derive(Debug, Clone, PartialEq, Eq)]
pub struct ToolCallDelta {
    pub index: u32,
    pub id: Option<String>,
    pub name: Option<String>,
    pub arguments: Option<String>,
}

/// A piece of a tool call as a value.
pub struct DeltaView {
    pub index: u32,
    pub id: Option<Seq<char>>,
    pub name: Option<Seq<char>>,
    pub arguments: Option<Seq<char>>,
}

impl View for ToolCallDelta {
    type V = DeltaView;

    open spec fn view(&self) -> DeltaView {
        DeltaView {
            index: self.index,
            id: option_text(self.id),
            name: option_text(self.name),
            arguments: option_text(self.arguments),
        }
    }
}

/// The views of a list of pieces, in order.
pub open spec fn deltas_view(ds: Seq<ToolCallDelta>) -> Seq<DeltaView> {
    ds.map_values(|d: ToolCallDelta| d@)
}

/// What has been received of the tool call with one stream index.
#[derive(Debug, Clone, PartialEq, Eq)]
pub struct ToolCallFragment {
    pub index: u32,
    pub id: String,
    pub name: String,
    pub arguments: String,
}

/// A fragment as a value.
pub struct FragmentView {
    pub index: u32,
    pub id: Seq<char>,
    pub name: Seq<char>,
    pub arguments: Seq<char>,
}

impl View for ToolCallFragment {
    type V = FragmentView;

    open spec fn view(&self) -> FragmentView {
        FragmentView {
            index: self.index,
            id: self.id@,
            name: self.name@,
            arguments: self.arguments@,
        }
    }
}

/// The views of a list of fragments, in order.
pub open spec fn fragments_view(fs: Seq<ToolCallFragment>) -> Seq<FragmentView> {
    fs.map_values(|f: ToolCallFragment| f@)
}

/// The text of an optional piece: nothing where it is absent.
pub open spec fn text_or_empty(s: Option<Seq<char>>) -> Seq<char> {
    match s {
        Some(x) => x,
        None => Seq::<char>::empty(),
    }
}

/// A fragment with a piece joined to its end.
pub open spec fn extended(f: FragmentView, d: DeltaView) -> FragmentView {
    FragmentView {
        index: f.index,
        id: f.id + text_or_empty(d.id),
        name: f.name + text_or_empty(d.name),
        arguments: f.arguments + text_or_empty(d.arguments),
    }
}

/// The fragment that the first piece of a call starts.
pub open spec fn started(d: DeltaView) -> FragmentView {
    FragmentView {
        index: d.index,
        id: text_or_empty(d.id),
        name: text_or_empty(d.name),
        arguments: text_or_empty(d.arguments),
    }
}

/// The fragments stand in the order of their indices, each index once.
pub open spec fn ascending(fs: Seq<FragmentView>) -> bool {
    forall|i: int, j: int| 0 <= i < j < fs.len() ==> (#[trigger] fs[i]).index < (#[trigger] fs[j]).index
}

/// The fragments after one more piece: the piece is joined to the fragment
/// of its index, or starts a new fragment at the place of its index.
pub open spec fn absorb(fs: Seq<FragmentView>, d: DeltaView) -> Seq<FragmentView>
    decreases fs.len(),
{
    if fs.len() == 0 {
        seq![started(d)]
    } else if fs[0].index == d.index {
        seq![extended(fs[0], d)] + fs.drop_first()
    } else if fs[0].index > d.index {
        seq![started(d)] + fs
    } else {
        seq![fs[0]] + absorb(fs.drop_first(), d)
    }
}

/// The fragments after a run of pieces, taken in the order of arrival.
pub open spec fn absorb_all(fs: Seq<FragmentView>, ds: Seq<DeltaView>) -> Seq<FragmentView>
    decreases ds.len(),
{
    if ds.len() == 0 {
        fs
    } else {
        absorb(absorb_all(fs, ds.drop_last()), ds.last())
    }
}

/// The complete tool call that a fragment has grown into.
pub open spec fn materialized(f: FragmentView) -> ToolCallView {
    ToolCallView { id: f.id, kind: "function"@, name: f.name, arguments: f.arguments }
}

/// The complete tool calls of a list of fragments, in order.
pub open spec fn materialized_all(fs: Seq<FragmentView>) -> Seq<ToolCallView> {
    fs.map_values(|f: FragmentView| materialized(f))
}

/// Where the fragments before `at` have smaller indices than the piece, and
/// the one at `at` has none smaller, the piece lands at `at`: it is joined to
/// the fragment there if the indices agree, and starts a new one there if not.
pub proof fn lemma_absorb_at(fs: Seq<FragmentView>, d: DeltaView, at: int)
    requires
        0 <= at <= fs.len(),
        forall|k: int| 0 <= k < at ==> (#[trigger] fs[k]).index < d.index,
        at < fs.len() ==> fs[at].index >= d.index,
    ensures
        absorb(fs, d) == if at < fs.len() && fs[at].index == d.index {
            fs.update(at, extended(fs[at], d))
        } else {
            fs.insert(at, started(d))
        },
    decreases at,
{
    if at == 0 {
        if fs.len() == 0 {
            assert(fs.insert(0, started(d)) =~= seq![started(d)]);
        } else if fs[0].index == d.index {
            assert(seq![extended(fs[0], d)] + fs.drop_first() =~= fs.update(0, extended(fs[0], d)));
        } else {
            assert(seq![started(d)] + fs =~= fs.insert(0, started(d)));
        }
    } else {
        let rest = fs.drop_first();
        assert(fs[0].index < d.index);
        assert forall|k: int| 0 <= k < at - 1 implies (#[trigger] rest[k]).index < d.index by {
            assert(rest[k] == fs[k + 1]);
        }
        lemma_absorb_at(rest, d, at - 1);
        if at < fs.len() && fs[at].index == d.index {
            assert(seq![fs[0]] + rest.update(at - 1, extended(rest[at - 1], d)) =~= fs.update(
                at,
                extended(fs[at], d),
            ));
        } else {
            assert(seq![fs[0]] + rest.insert(at - 1, started(d)) =~= fs.insert(at, started(d)));
        }
    }
}

/// A piece keeps the fragments in the order of their indices.
pub proof fn lemma_absorb_ascending(fs: Seq<FragmentView>, d: DeltaView)
    requires
        ascending(fs),
    ensures
        ascending(absorb(fs, d)),
    decreases fs.len(),
{
    if fs.len() == 0 {
    } else if fs[0].index == d.index {
        let out = absorb(fs, d);
        assert forall|i: int, j: int| 0 <= i < j < out.len() implies (#[trigger] out[i]).index < (
        #[trigger] out[j]).index by {
            assert(out[j] == fs[j]);
            assert(out[i].index == fs[i].index);
        }
    } else if fs[0].index > d.index {
        let out = absorb(fs, d);
        assert forall|i: int, j: int| 0 <= i < j < out.len() implies (#[trigger] out[i]).index < (
        #[trigger] out[j]).index by {
            assert(out[j] == fs[j - 1]);
            if i > 0 {
                assert(out[i] == fs[i - 1]);
            } else {
                if j - 1 > 0 {
                    assert(fs[0].index < fs[j - 1].index);
                }
            }
        }
    } else {
        let rest = fs.drop_first();
        assert forall|i: int, j: int| 0 <= i < j < rest.len() implies (#[trigger] rest[i]).index < (
        #[trigger] rest[j]).index by {
            assert(fs[i + 1].index < fs[j + 1].index);
        }
        lemma_absorb_ascending(rest, d);
        lemma_absorb_first(rest, d, fs[0].index);
        let inner = absorb(rest, d);
        let out = absorb(fs, d);
        assert forall|i: int, j: int| 0 <= i < j < out.len() implies (#[trigger] out[i]).index < (
        #[trigger] out[j]).index by {
            assert(out[j] == inner[j - 1]);
            if i > 0 {
                assert(out[i] == inner[i - 1]);
            }
        }
    }
}

/// Where every fragment and the piece have indices above `floor`, so has
/// every fragment after the piece.
pub proof fn lemma_absorb_first(fs: Seq<FragmentView>, d: DeltaView, floor: u32)
    requires
        d.index > floor,
        forall|k: int| 0 <= k < fs.len() ==> (#[trigger] fs[k]).index > floor,
    ensures
        forall|k: int| 0 <= k < absorb(fs, d).len() ==> (#[trigger] absorb(fs, d)[k]).index > floor,
    decreases fs.len(),
{
    if fs.len() == 0 {
    } else if fs[0].index == d.index {
        assert forall|k: int| 0 <= k < absorb(fs, d).len() implies (#[trigger] absorb(
            fs,
            d,
        )[k]).index > floor by {
            assert(absorb(fs, d)[k].index == fs[k].index);
        }
    } else if fs[0].index > d.index {
        assert forall|k: int| 0 <= k < absorb(fs, d).len() implies (#[trigger] absorb(
            fs,
            d,
        )[k]).index > floor by {
            if k > 0 {
                assert(absorb(fs, d)[k] == fs[k - 1]);
            }
        }
    } else {
        let rest = fs.drop_first();
        assert forall|k: int| 0 <= k < rest.len() implies (#[trigger] rest[k]).index > floor by {
            assert(rest[k] == fs[k + 1]);
        }
        lemma_absorb_first(rest, d, floor);
        assert forall|k: int| 0 <= k < absorb(fs, d).len() implies (#[trigger] absorb(
            fs,
            d,
        )[k]).index > floor by {
            if k > 0 {
                assert(absorb(fs, d)[k] == absorb(rest, d)[k - 1]);
            } else {
                assert(absorb(fs, d)[0] == fs[0]);
            }
        }
    }
}

/// A run of pieces keeps the fragments in the order of their indices.
pub proof fn lemma_absorb_all_ascending(fs: Seq<FragmentView>, ds: Seq<DeltaView>)
    requires
        ascending(fs),
    ensures
        ascending(absorb_all(fs, ds)),
    decreases ds.len(),
{
    if ds.len() > 0 {
        lemma_absorb_all_ascending(fs, ds.drop_last());
        lemma_absorb_ascending(absorb_all(fs, ds.drop_last()), ds.last());
    }
}

/// Joins an optional piece to the end of a text.
fn join_piece(text: &mut String, piece: &Option<String>)
    ensures
        final(text)@ == old(text)@ + text_or_empty(option_text(*piece)),
{
    match piece {
        Some(p) => {
            text.append(p.as_str());
        },
        None => {
            assert(text@ =~= old(text)@ + Seq::<char>::empty());
        },
    }
}

/// Takes one more piece into a list of fragments that stands in the order of
/// its indices.
pub fn absorb_delta(fragments: &mut Vec<ToolCallFragment>, delta: &ToolCallDelta)
    requires
        ascending(fragments_view(old(fragments)@)),
    ensures
        fragments_view(final(fragments)@) == absorb(fragments_view(old(fragments)@), delta@),
        ascending(fragments_view(final(fragments)@)),
{
    let ghost before = fragments_view(fragments@);
    let mut at: usize = 0;
    while at < fragments.len() && fragments[at].index < delta.index
        invariant
            at <= fragments@.len(),
            fragments@ == old(fragments)@,
            forall|k: int| 0 <= k < at ==> (#[trigger] before[k]).index < delta.index,
            before == fragments_view(fragments@),
        decreases fragments@.len() - at,
    {
        at += 1;
    }
    proof {
        if at < fragments@.len() {
            assert(before[at as int].index >= delta.index);
        }
        lemma_absorb_at(before, delta@, at as int);
        lemma_absorb_ascending(before, delta@);
    }
    let mut fragment = if at < fragments.len() && fragments[at].index == delta.index {
        fragments.remove(at)
    } else {
        ToolCallFragment {
            index: delta.index,
            id: String::new(),
            name: String::new(),
            arguments: String::new(),
        }
    };
    let ghost base = fragment@;
    join_piece(&mut fragment.id, &delta.id);
    join_piece(&mut fragment.name, &delta.name);
    join_piece(&mut fragment.arguments, &delta.arguments);
    proof {
        assert(fragment@.id =~= base.id + text_or_empty(delta@.id));
        if at < before.len() && before[at as int].index == delta.index {
            assert(fragment@ == extended(before[at as int], delta@));
        } else {
            assert(Seq::<char>::empty() + text_or_empty(delta@.id) =~= text_or_empty(delta@.id));
            assert(Seq::<char>::empty() + text_or_empty(delta@.name) =~= text_or_empty(
                delta@.name,
            ));
            assert(Seq::<char>::empty() + text_or_empty(delta@.arguments) =~= text_or_empty(
                delta@.arguments,
            ));
            assert(fragment@ == started(delta@));
        }
    }
    fragments.insert(at, fragment);
    assert(fragments_view(fragments@) =~= absorb(before, delta@));
}

/// The complete tool calls that a list of fragments has grown into, in
/// order.
pub fn materialize(fragments: &Vec<ToolCallFragment>) -> (calls: Vec<ToolCall>)
    ensures
        tool_calls_view(calls@) == materialized_all(fragments_view(fragments@)),
{
    let mut calls: Vec<ToolCall> = Vec::new();
    let mut i: usize = 0;
    while i < fragments.len()
        invariant
            i <= fragments@.len(),
            calls@.len() == i,
            forall|k: int| 0 <= k < i ==> (#[trigger] calls@[k])@ == materialized(fragments@[k]@),
        decreases fragments@.len() - i,
    {
        calls.push(
            ToolCall {
                id: fragments[i].id.clone(),
                kind: String::from_str("function"),
                function: FunctionCall {
                    name: fragments[i].name.clone(),
                    arguments: fragments[i].arguments.clone(),
                },
            },
        );
        i += 1;
    }
    assert(tool_calls_view(calls@) =~= materialized_all(fragments_view(fragments@)));
    calls
}

} // verus!
