//! The registry: which tools are enabled, what the model is told of them,
//! and the one entry point through which every tool call goes.

use vstd::prelude::*;
use vstd::string::StringExecFns;
use crate::llm::{defs_model, functions_model, FunctionDef, ToolDef, ToolDefModel};
use crate::text::{chars_of, comes_before, precedes, precedes_total, precedes_transitive, same_text};
use crate::tools::args::{parsed_args, ArgModel, ToolArgs};
use crate::tools::kind::ToolKind;
use crate::tools::{outcome, Step, ToolContext, ToolError, ToolFault, ToolStep};

verus! {

/// Whether no two of `kinds` share a name.
pub open spec fn distinct_names(kinds: Seq<ToolKind>) -> bool {
    forall|i: int, j: int|
        0 <= i < kinds.len() && 0 <= j < kinds.len() && i != j ==> kinds[i].name_text()
            != kinds[j].name_text()
}

/// The first of `kinds` that is called `name`.
pub open spec fn find_kind(kinds: Seq<ToolKind>, name: Seq<char>) -> Option<ToolKind>
    decreases kinds.len(),
{
    if kinds.len() == 0 {
        None
    } else if kinds[0].name_text() == name {
        Some(kinds[0])
    } else {
        find_kind(kinds.drop_first(), name)
    }
}

/// `kinds` without the tools called `name`.
pub open spec fn without(kinds: Seq<ToolKind>, name: Seq<char>) -> Seq<ToolKind> {
    kinds.filter(|k: ToolKind| k.name_text() != name)
}

/// `sorted` with `kind` put behind the last tool whose name does not come
/// after its own.
pub open spec fn insert_by_name(sorted: Seq<ToolKind>, kind: ToolKind) -> Seq<ToolKind>
    decreases sorted.len(),
{
    if sorted.len() == 0 {
        seq![kind]
    } else if precedes(kind.name_text(), sorted.last().name_text()) {
        insert_by_name(sorted.drop_last(), kind).push(sorted.last())
    } else {
        sorted.push(kind)
    }
}

/// `kinds` in the order of their names.
pub open spec fn by_name(kinds: Seq<ToolKind>) -> Seq<ToolKind>
    decreases kinds.len(),
{
    if kinds.len() == 0 {
        Seq::empty()
    } else {
        insert_by_name(by_name(kinds.drop_last()), kinds.last())
    }
}

/// Whether the names of `kinds` strictly ascend.
pub open spec fn ascending(kinds: Seq<ToolKind>) -> bool {
    forall|i: int, j: int|
        0 <= i < j < kinds.len() ==> precedes(kinds[i].name_text(), kinds[j].name_text())
}

/// What the model is told of `kind` in a chat request.
pub open spec fn tool_def_model(kind: ToolKind) -> ToolDefModel {
    ToolDefModel { type_: "function"@, function: kind.definition_model() }
}

/// What a call of the tool `name` comes to in a registry that holds
/// `kinds`, once the JSON parser has said what the arguments are.
pub open spec fn dispatched(
    kinds: Seq<ToolKind>,
    store: Seq<char>,
    base: Seq<char>,
    name: Seq<char>,
    parsed: Result<Seq<(Seq<char>, ArgModel)>, Seq<char>>,
    today: Seq<char>,
) -> Result<Step, ToolFault> {
    match find_kind(kinds, name) {
        None => Err(ToolFault::UnknownTool(name)),
        Some(kind) => match parsed {
            Err(reason) => Err(ToolFault::InvalidArguments { tool: name, reason }),
            Ok(args) => kind.step(args, store, base, today),
        },
    }
}

/// A search through `kinds` and one more tool finds what the search through
/// `kinds` finds, and the one more tool only where that finds nothing.
pub proof fn find_after_push(kinds: Seq<ToolKind>, kind: ToolKind, name: Seq<char>)
    ensures
        find_kind(kinds.push(kind), name) == match find_kind(kinds, name) {
            Some(k) => Some(k),
            None => if kind.name_text() == name {
                Some(kind)
            } else {
                None
            },
        },
    decreases kinds.len(),
{
    if kinds.len() == 0 {
        assert(kinds.push(kind).drop_first() =~= kinds);
    } else {
        assert(kinds.push(kind).drop_first() =~= kinds.drop_first().push(kind));
        find_after_push(kinds.drop_first(), kind, name);
    }
}

/// A name is found among `kinds` exactly if one of them bears it, and what
/// is found bears it.
pub proof fn find_kind_finds(kinds: Seq<ToolKind>, name: Seq<char>)
    ensures
        find_kind(kinds, name) is None <==> forall|i: int|
            0 <= i < kinds.len() ==> (#[trigger] kinds[i]).name_text() != name,
        find_kind(kinds, name) matches Some(k) ==> k.name_text() == name && kinds.contains(k),
    decreases kinds.len(),
{
    if kinds.len() > 0 {
        let rest = kinds.drop_first();
        find_kind_finds(rest, name);
        if kinds[0].name_text() != name {
            assert forall|i: int| 0 <= i < rest.len() implies rest[i] == kinds[i + 1] by {}
            if find_kind(rest, name) is None {
                assert forall|i: int| 0 <= i < kinds.len() implies (#[trigger] kinds[i]).name_text()
                    != name by {
                    if i > 0 {
                        assert(rest[i - 1] == kinds[i]);
                    }
                }
            } else {
                let k = find_kind(rest, name)->0;
                let j = choose|j: int| 0 <= j < rest.len() && rest[j] == k;
                assert(kinds[j + 1] == k);
            }
        } else {
            assert(kinds[0] == kinds[0]);
        }
    }
}

/// Of two registrations under one name only the later is left: it is what
/// the name finds, and no other entry bears the name.
pub proof fn last_registration_wins(kinds: Seq<ToolKind>, first: ToolKind, second: ToolKind)
    requires
        first.name_text() == second.name_text(),
    ensures
        ({
            let name = second.name_text();
            let after = without(without(kinds, name).push(first), name).push(second);
            &&& find_kind(after, name) == Some(second)
            &&& forall|i: int|
                0 <= i < after.len() && (#[trigger] after[i]).name_text() == name ==> i
                    == after.len() - 1
        }),
{
    let name = second.name_text();
    let differs = |k: ToolKind| k.name_text() != name;
    let kept = without(without(kinds, name).push(first), name);
    let after = kept.push(second);
    assert forall|i: int| 0 <= i < kept.len() implies (#[trigger] kept[i]).name_text() != name by {
        without(kinds, name).push(first).lemma_filter_pred(differs, i);
    }
    find_kind_finds(kept, name);
    find_after_push(kept, second, name);
}

/// A call of a tool that is not enabled fails with `UnknownTool`, whatever
/// its arguments.
pub proof fn unknown_tool_fails(
    kinds: Seq<ToolKind>,
    store: Seq<char>,
    base: Seq<char>,
    name: Seq<char>,
    parsed: Result<Seq<(Seq<char>, ArgModel)>, Seq<char>>,
    today: Seq<char>,
)
    requires
        forall|i: int| 0 <= i < kinds.len() ==> (#[trigger] kinds[i]).name_text() != name,
    ensures
        dispatched(kinds, store, base, name, parsed, today) == Err::<Step, ToolFault>(
            ToolFault::UnknownTool(name),
        ),
{
    find_kind_finds(kinds, name);
}

proof fn insert_keeps_order(sorted: Seq<ToolKind>, kind: ToolKind)
    requires
        ascending(sorted),
        forall|i: int| 0 <= i < sorted.len() ==> (#[trigger] sorted[i]).name_text()
            != kind.name_text(),
    ensures
        ascending(insert_by_name(sorted, kind)),
        insert_by_name(sorted, kind).to_multiset() == sorted.to_multiset().insert(kind),
        insert_by_name(sorted, kind).len() == sorted.len() + 1,
        forall|i: int|
            0 <= i < sorted.len() + 1 ==> (#[trigger] insert_by_name(sorted, kind)[i]) == kind
                || sorted.contains(insert_by_name(sorted, kind)[i]),
    decreases sorted.len(),
{
    broadcast use vstd::seq_lib::to_multiset_build;

    let out = insert_by_name(sorted, kind);
    if sorted.len() == 0 {
        assert(sorted =~= Seq::<ToolKind>::empty());
        assert(out =~= Seq::<ToolKind>::empty().push(kind));
    } else if precedes(kind.name_text(), sorted.last().name_text()) {
        let head = sorted.drop_last();
        let last = sorted.last();
        assert(sorted =~= head.push(last));
        assert forall|i: int| 0 <= i < head.len() implies (#[trigger] head[i]).name_text()
            != kind.name_text() by {
            assert(head[i] == sorted[i]);
        }
        assert(ascending(head)) by {
            assert forall|i: int, j: int| 0 <= i < j < head.len() implies precedes(
                head[i].name_text(),
                head[j].name_text(),
            ) by {
                assert(head[i] == sorted[i] && head[j] == sorted[j]);
            }
        }
        insert_keeps_order(head, kind);
        let inner = insert_by_name(head, kind);
        assert forall|i: int, j: int| 0 <= i < j < out.len() implies precedes(
            out[i].name_text(),
            out[j].name_text(),
        ) by {
            if j < inner.len() {
                assert(out[i] == inner[i] && out[j] == inner[j]);
            } else {
                assert(out[j] == last);
                assert(out[i] == inner[i]);
                if inner[i] != kind {
                    let k = choose|k: int| 0 <= k < head.len() && head[k] == inner[i];
                    assert(sorted[k] == inner[i]);
                    assert(precedes(sorted[k].name_text(), sorted[sorted.len() - 1].name_text()));
                }
            }
        }
        assert forall|i: int| 0 <= i < sorted.len() + 1 implies (#[trigger] out[i]) == kind
            || sorted.contains(out[i]) by {
            if i < inner.len() {
                assert(out[i] == inner[i]);
                if inner[i] != kind {
                    let k = choose|k: int| 0 <= k < head.len() && head[k] == inner[i];
                    assert(sorted[k] == inner[i]);
                }
            } else {
                assert(out[i] == sorted[sorted.len() - 1]);
            }
        }
        assert(out.to_multiset() =~= sorted.to_multiset().insert(kind));
    } else {
        precedes_total(kind.name_text(), sorted.last().name_text());
        assert forall|i: int, j: int| 0 <= i < j < out.len() implies precedes(
            out[i].name_text(),
            out[j].name_text(),
        ) by {
            if j == sorted.len() {
                assert(out[i] == sorted[i]);
                assert(sorted.last() == sorted[sorted.len() - 1]);
                if i < sorted.len() - 1 {
                    precedes_transitive(
                        sorted[i].name_text(),
                        sorted.last().name_text(),
                        kind.name_text(),
                    );
                }
            } else {
                assert(out[i] == sorted[i] && out[j] == sorted[j]);
            }
        }
        assert forall|i: int| 0 <= i < sorted.len() + 1 implies (#[trigger] out[i]) == kind
            || sorted.contains(out[i]) by {
            if i < sorted.len() {
                assert(out[i] == sorted[i]);
            }
        }
    }
}

/// Tools with different names, put in the order of their names, are the
/// same tools, and their names strictly ascend.
pub proof fn by_name_sorts(kinds: Seq<ToolKind>)
    requires
        distinct_names(kinds),
    ensures
        ascending(by_name(kinds)),
        by_name(kinds).to_multiset() == kinds.to_multiset(),
        by_name(kinds).len() == kinds.len(),
        forall|i: int| 0 <= i < kinds.len() ==> kinds.contains(#[trigger] by_name(kinds)[i]),
    decreases kinds.len(),
{
    broadcast use vstd::seq_lib::to_multiset_build;

    if kinds.len() == 0 {
        assert(kinds =~= Seq::<ToolKind>::empty());
    } else {
        let head = kinds.drop_last();
        let last = kinds.last();
        assert(kinds =~= head.push(last));
        assert(distinct_names(head)) by {
            assert forall|i: int, j: int|
                0 <= i < head.len() && 0 <= j < head.len() && i != j implies head[i].name_text()
                != head[j].name_text() by {
                assert(head[i] == kinds[i] && head[j] == kinds[j]);
            }
        }
        by_name_sorts(head);
        let sorted = by_name(head);
        assert forall|i: int| 0 <= i < sorted.len() implies (#[trigger] sorted[i]).name_text()
            != last.name_text() by {
            let k = choose|k: int| 0 <= k < head.len() && head[k] == sorted[i];
            assert(kinds[k] == sorted[i]);
            assert(kinds[kinds.len() - 1] == last);
        }
        insert_keeps_order(sorted, last);
        let out = by_name(kinds);
        assert forall|i: int| 0 <= i < kinds.len() implies kinds.contains(#[trigger] out[i]) by {
            if out[i] == last {
                assert(kinds[kinds.len() - 1] == last);
            } else {
                let a = choose|a: int| 0 <= a < sorted.len() && sorted[a] == out[i];
                let k = choose|k: int| 0 <= k < head.len() && head[k] == sorted[a];
                assert(kinds[k] == out[i]);
            }
        }
    }
}

/// The enabled tools, each under its own name.
pub struct ToolRegistry {
    tools: Vec<ToolKind>,
    ctx: ToolContext,
}

impl ToolRegistry {
    #[verifier::type_invariant]
    spec fn names_differ(self) -> bool {
        distinct_names(self.tools@)
    }

    /// The enabled tools, in the order in which they were added.
    pub closed spec fn kinds(&self) -> Seq<ToolKind> {
        self.tools@
    }

    /// Where the memory store lives.
    pub closed spec fn store(&self) -> Seq<char> {
        self.ctx.memory.base()
    }

    /// The directory that file tools are confined to.
    pub closed spec fn base(&self) -> Seq<char> {
        self.ctx.base_dir@
    }

    /// A registry without tools.
    pub fn new(ctx: ToolContext) -> (r: Self)
        ensures
            r.kinds() == Seq::<ToolKind>::empty(),
            r.store() == ctx.memory.base(),
            r.base() == ctx.base_dir@,
    {
        ToolRegistry { tools: Vec::new(), ctx }
    }

    /// What every tool of this registry works with.
    pub fn context(&self) -> (c: &ToolContext)
        ensures
            c.memory.base() == self.store(),
            c.base_dir@ == self.base(),
    {
        &self.ctx
    }

    /// Enables `kind`. A tool of the same name that was enabled before
    /// gives way to it.
    pub fn add(&mut self, kind: ToolKind)
        ensures
            final(self).kinds() == without(old(self).kinds(), kind.name_text()).push(kind),
            distinct_names(final(self).kinds()),
            find_kind(final(self).kinds(), kind.name_text()) == Some(kind),
            forall|other: Seq<char>|
                other != kind.name_text() ==> #[trigger] find_kind(final(self).kinds(), other)
                    == find_kind(old(self).kinds(), other),
            final(self).store() == old(self).store(),
            final(self).base() == old(self).base(),
    {
        let name = kind.name();
        let mut kept: Vec<ToolKind> = Vec::new();
        let mut i: usize = 0;
        let ghost differs = |k: ToolKind| k.name_text() != kind.name_text();
        proof {
            use_type_invariant(&*self);
            assert(self.tools@.take(0).filter(differs) =~= Seq::<ToolKind>::empty()) by {
                reveal(Seq::filter);
            }
        }
        while i < self.tools.len()
            invariant
                i <= self.tools@.len(),
                name@ == kind.name_text(),
                differs == |k: ToolKind| k.name_text() != kind.name_text(),
                kept@ == self.tools@.take(i as int).filter(differs),
                distinct_names(self.tools@),
                forall|a: int|
                    0 <= a < kept@.len() ==> exists|b: int|
                        0 <= b < i && self.tools@[b] == #[trigger] kept@[a],
                forall|a: int, b: int|
                    0 <= a < kept@.len() && 0 <= b < kept@.len() && a != b
                        ==> kept@[a].name_text() != kept@[b].name_text(),
                forall|a: int| 0 <= a < kept@.len() ==> differs(#[trigger] kept@[a]),
                forall|other: Seq<char>|
                    other != kind.name_text() ==> #[trigger] find_kind(kept@, other) == find_kind(
                        self.tools@.take(i as int),
                        other,
                    ),
            decreases self.tools@.len() - i,
        {
            let t = self.tools[i];
            proof {
                assert(self.tools@.take(i + 1) =~= self.tools@.take(i as int).push(t));
                self.tools@.take(i as int).lemma_filter_push(t, differs);
                let next = if t.name_text() != kind.name_text() {
                    kept@.push(t)
                } else {
                    kept@
                };
                assert forall|other: Seq<char>| other != kind.name_text() implies #[trigger] find_kind(
                    next,
                    other,
                ) == find_kind(self.tools@.take(i + 1), other) by {
                    find_after_push(kept@, t, other);
                    find_after_push(self.tools@.take(i as int), t, other);
                    assert(find_kind(kept@, other) == find_kind(self.tools@.take(i as int), other));
                }
            }
            if !same_text(t.name(), name) {
                proof {
                    assert forall|a: int| 0 <= a < kept@.len() implies kept@[a].name_text()
                        != t.name_text() by {
                        let b = choose|b: int| 0 <= b < i && self.tools@[b] == kept@[a];
                        assert(self.tools@[b].name_text() != self.tools@[i as int].name_text());
                    }
                }
                kept.push(t);
            }
            i += 1;
        }
        assert(self.tools@.take(i as int) =~= self.tools@);
        proof {
            find_kind_finds(kept@, kind.name_text());
            find_after_push(kept@, kind, kind.name_text());
            assert forall|other: Seq<char>| other != kind.name_text() implies #[trigger] find_kind(
                kept@.push(kind),
                other,
            ) == find_kind(self.tools@, other) by {
                find_after_push(kept@, kind, other);
                assert(find_kind(kept@, other) == find_kind(self.tools@.take(i as int), other));
            }
        }
        kept.push(kind);
        self.tools = kept;
    }

    /// The enabled tool called `name`. There is at most one.
    pub fn find(&self, name: &str) -> (r: Option<ToolKind>)
        ensures
            r == find_kind(self.kinds(), name@),
            distinct_names(self.kinds()),
    {
        proof {
            use_type_invariant(self);
        }
        let mut i: usize = 0;
        assert(self.tools@.skip(0) =~= self.tools@);
        while i < self.tools.len()
            invariant
                i <= self.tools@.len(),
                find_kind(self.tools@, name@) == find_kind(self.tools@.skip(i as int), name@),
                distinct_names(self.tools@),
            decreases self.tools@.len() - i,
        {
            proof {
                let rest = self.tools@.skip(i as int);
                assert(rest[0] == self.tools@[i as int]);
                assert(rest.drop_first() =~= self.tools@.skip(i + 1));
            }
            if same_text(self.tools[i].name(), name) {
                return Some(self.tools[i]);
            }
            i += 1;
        }
        None
    }

    fn sorted(&self) -> (v: Vec<ToolKind>)
        ensures
            v@ == by_name(self.kinds()),
    {
        let mut v: Vec<ToolKind> = Vec::new();
        let mut i: usize = 0;
        assert(self.tools@.take(0) =~= Seq::<ToolKind>::empty());
        while i < self.tools.len()
            invariant
                i <= self.tools@.len(),
                v@ == by_name(self.tools@.take(i as int)),
            decreases self.tools@.len() - i,
        {
            let kind = self.tools[i];
            let name = chars_of(kind.name());
            let mut pos: usize = v.len();
            assert(v@.take(pos as int) =~= v@ && v@.skip(pos as int) =~= Seq::<ToolKind>::empty());
            while pos > 0 && comes_before(&name, &chars_of(v[pos - 1].name()))
                invariant
                    pos <= v@.len(),
                    name@ == kind.name_text(),
                    insert_by_name(v@, kind) == insert_by_name(v@.take(pos as int), kind) + v@.skip(
                        pos as int,
                    ),
                decreases pos,
            {
                proof {
                    let head = v@.take(pos as int);
                    assert(head.last() == v@[pos - 1]);
                    assert(head.drop_last() =~= v@.take(pos - 1));
                    assert(seq![v@[pos - 1]] + v@.skip(pos as int) =~= v@.skip(pos - 1));
                    assert(insert_by_name(head.drop_last(), kind).push(head.last()) + v@.skip(
                        pos as int,
                    ) =~= insert_by_name(head.drop_last(), kind) + v@.skip(pos - 1));
                }
                pos -= 1;
            }
            proof {
                let head = v@.take(pos as int);
                assert(insert_by_name(head, kind) =~= head.push(kind)) by {
                    if pos > 0 {
                        assert(head.last() == v@[pos - 1]);
                    }
                }
                assert(head.push(kind) + v@.skip(pos as int) =~= v@.insert(pos as int, kind));
                let next = self.tools@.take(i + 1);
                assert(next.drop_last() =~= self.tools@.take(i as int));
                assert(next.last() == kind);
            }
            v.insert(pos, kind);
            i += 1;
        }
        assert(self.tools@.take(i as int) =~= self.tools@);
        v
    }

    /// What the model is told of the enabled tools, in the order of their
    /// names.
    pub fn tool_defs(&self) -> (defs: Vec<ToolDef>)
        ensures
            defs_model(defs@) == by_name(self.kinds()).map_values(|k: ToolKind| tool_def_model(k)),
            ascending(by_name(self.kinds())),
            defs@.len() == self.kinds().len(),
    {
        proof {
            use_type_invariant(self);
            by_name_sorts(self.tools@);
        }
        let order = self.sorted();
        let mut defs: Vec<ToolDef> = Vec::new();
        let mut i: usize = 0;
        while i < order.len()
            invariant
                i <= order@.len(),
                defs@.len() == i,
                forall|k: int| 0 <= k < i ==> defs@[k]@ == tool_def_model(order@[k]),
            decreases order@.len() - i,
        {
            defs.push(
                ToolDef { type_: String::from_str("function"), function: order[i].definition() },
            );
            i += 1;
        }
        assert(defs_model(defs@) =~= order@.map_values(|k: ToolKind| tool_def_model(k)));
        defs
    }

    /// What a client of the tool-access protocol is told of the enabled
    /// tools, in the order in which they were added.
    pub fn tool_defs_mcp(&self) -> (defs: Vec<FunctionDef>)
        ensures
            functions_model(defs@) == self.kinds().map_values(
                |k: ToolKind| k.definition_model(),
            ),
    {
        let mut defs: Vec<FunctionDef> = Vec::new();
        let mut i: usize = 0;
        while i < self.tools.len()
            invariant
                i <= self.tools@.len(),
                defs@.len() == i,
                forall|k: int| 0 <= k < i ==> defs@[k]@ == self.tools@[k].definition_model(),
            decreases self.tools@.len() - i,
        {
            defs.push(self.tools[i].definition());
            i += 1;
        }
        assert(functions_model(defs@) =~= self.tools@.map_values(
            |k: ToolKind| k.definition_model(),
        ));
        defs
    }

    /// Runs the tool `name` on the JSON text of a call's arguments, as far
    /// as it goes without outside work. Fails with `UnknownTool` where no
    /// such tool is enabled, and with `InvalidArguments` where the text is
    /// not JSON.
    pub fn execute(&self, name: &str, args_json: &str, today: &str) -> (r: Result<
        ToolStep,
        ToolError,
    >)
        ensures
            outcome(r) == dispatched(
                self.kinds(),
                self.store(),
                self.base(),
                name@,
                parsed_args(args_json@),
                today@,
            ),
    {
        let kind = match self.find(name) {
            Some(kind) => kind,
            None => {
                return Err(ToolError::UnknownTool(String::from_str(name)));
            },
        };
        match ToolArgs::parse(args_json) {
            Err(reason) => Err(
                ToolError::InvalidArguments { tool: String::from_str(name), reason },
            ),
            Ok(args) => kind.execute(&args, &self.ctx, today),
        }
    }
}

} // verus!
