//! The skills that the assistant can load on demand. The prompt lists each
//! by its name and one line; the full text stays in its file.

use vstd::prelude::*;
use crate::text::{
    blank, chars_of, comes_before, is_blank, join_path, joined, lines_of, precedes, precedes_total,
    precedes_transitive, split_lines,
};

verus! {

/// A skill as the prompt lists it.
#[derive(Debug)]
pub struct SkillSummary {
    pub name: String,
    pub description: String,
    /// Where the skill's full text is.
    pub path: String,
}

/// A `SkillSummary`, as the contracts speak of it.
pub struct SkillModel {
    pub name: Seq<char>,
    pub description: Seq<char>,
    pub path: Seq<char>,
}

impl View for SkillSummary {
    type V = SkillModel;

    open spec fn view(&self) -> SkillModel {
        SkillModel { name: self.name@, description: self.description@, path: self.path@ }
    }
}

impl DeepView for SkillSummary {
    type V = SkillModel;

    open spec fn deep_view(&self) -> SkillModel {
        self@
    }
}

/// A skill as it was found on disk: the name of its directory and the
/// content of its `SKILL.md`.
#[derive(Debug)]
pub struct SkillFile {
    pub name: String,
    pub content: String,
}

impl View for SkillFile {
    type V = (Seq<char>, Seq<char>);

    open spec fn view(&self) -> (Seq<char>, Seq<char>) {
        (self.name@, self.content@)
    }
}

impl DeepView for SkillFile {
    type V = (Seq<char>, Seq<char>);

    open spec fn deep_view(&self) -> (Seq<char>, Seq<char>) {
        self@
    }
}

/// Whether a line can describe a skill: it is no heading and not blank.
pub open spec fn describes(line: Seq<char>) -> bool {
    !(line.len() > 0 && line[0] == '#') && !blank(line)
}

/// The first of `lines` that can describe a skill, or nothing.
pub open spec fn first_description(lines: Seq<Seq<char>>) -> Seq<char>
    decreases lines.len(),
{
    if lines.len() == 0 {
        Seq::empty()
    } else if describes(lines[0]) {
        lines[0]
    } else {
        first_description(lines.drop_first())
    }
}

/// Where the file of the skill `name` is, for skills kept in `dir`.
pub open spec fn skill_path(dir: Seq<char>, name: Seq<char>) -> Seq<char> {
    joined(joined(dir, name), "SKILL.md"@)
}

/// What the prompt lists of the skill found as `file`.
pub open spec fn summary_of(dir: Seq<char>, file: (Seq<char>, Seq<char>)) -> SkillModel {
    SkillModel {
        name: file.0,
        description: first_description(split_lines(file.1)),
        path: skill_path(dir, file.0),
    }
}

/// `sorted` with `skill` put behind the last skill whose name does not
/// come after its own.
pub open spec fn insert_skill(sorted: Seq<SkillModel>, skill: SkillModel) -> Seq<SkillModel>
    decreases sorted.len(),
{
    if sorted.len() == 0 {
        seq![skill]
    } else if precedes(skill.name, sorted.last().name) {
        insert_skill(sorted.drop_last(), skill).push(sorted.last())
    } else {
        sorted.push(skill)
    }
}

/// The summaries of the first `n` of `found`, in the order of their names;
/// skills of one name stay in the order in which they were found.
pub open spec fn summaries(dir: Seq<char>, found: Seq<(Seq<char>, Seq<char>)>, n: int) -> Seq<
    SkillModel,
>
    decreases n,
{
    if n <= 0 {
        Seq::empty()
    } else {
        insert_skill(summaries(dir, found, n - 1), summary_of(dir, found[n - 1]))
    }
}

/// Whether no skill stands behind one whose name comes after its own.
pub open spec fn in_name_order(skills: Seq<SkillModel>) -> bool {
    forall|i: int, j: int| 0 <= i < j < skills.len() ==> !precedes(skills[j].name, skills[i].name)
}

proof fn precedes_then_not_after(a: Seq<char>, b: Seq<char>, c: Seq<char>)
    requires
        precedes(a, b),
        !precedes(c, b),
    ensures
        precedes(a, c),
{
    precedes_total(b, c);
    if b != c {
        precedes_transitive(a, b, c);
    }
}

proof fn insert_skill_keeps_order(sorted: Seq<SkillModel>, skill: SkillModel)
    requires
        in_name_order(sorted),
    ensures
        in_name_order(insert_skill(sorted, skill)),
        insert_skill(sorted, skill).len() == sorted.len() + 1,
        insert_skill(sorted, skill).to_multiset() == sorted.to_multiset().insert(skill),
        forall|i: int|
            0 <= i < sorted.len() + 1 ==> (#[trigger] insert_skill(sorted, skill)[i]) == skill
                || sorted.contains(insert_skill(sorted, skill)[i]),
    decreases sorted.len(),
{
    broadcast use vstd::seq_lib::to_multiset_build;

    let out = insert_skill(sorted, skill);
    if sorted.len() == 0 {
        assert(sorted =~= Seq::<SkillModel>::empty());
        assert(out =~= Seq::<SkillModel>::empty().push(skill));
    } else if precedes(skill.name, sorted.last().name) {
        let head = sorted.drop_last();
        let last = sorted.last();
        assert(sorted =~= head.push(last));
        assert(in_name_order(head)) by {
            assert forall|i: int, j: int| 0 <= i < j < head.len() implies !precedes(
                head[j].name,
                head[i].name,
            ) by {
                assert(head[i] == sorted[i] && head[j] == sorted[j]);
            }
        }
        insert_skill_keeps_order(head, skill);
        let inner = insert_skill(head, skill);
        assert forall|i: int, j: int| 0 <= i < j < out.len() implies !precedes(
            out[j].name,
            out[i].name,
        ) by {
            if j < inner.len() {
                assert(out[i] == inner[i] && out[j] == inner[j]);
            } else {
                assert(out[j] == last);
                assert(out[i] == inner[i]);
                if inner[i] == skill {
                    precedes_total(skill.name, last.name);
                } else {
                    let k = choose|k: int| 0 <= k < head.len() && head[k] == inner[i];
                    assert(sorted[k] == inner[i]);
                    assert(!precedes(sorted[sorted.len() - 1].name, sorted[k].name));
                }
            }
        }
        assert forall|i: int| 0 <= i < sorted.len() + 1 implies (#[trigger] out[i]) == skill
            || sorted.contains(out[i]) by {
            if i < inner.len() {
                assert(out[i] == inner[i]);
                if inner[i] != skill {
                    let k = choose|k: int| 0 <= k < head.len() && head[k] == inner[i];
                    assert(sorted[k] == inner[i]);
                }
            } else {
                assert(out[i] == sorted[sorted.len() - 1]);
            }
        }
        assert(out.to_multiset() =~= sorted.to_multiset().insert(skill));
    } else {
        assert forall|i: int, j: int| 0 <= i < j < out.len() implies !precedes(
            out[j].name,
            out[i].name,
        ) by {
            if j == sorted.len() {
                assert(out[i] == sorted[i]);
                assert(sorted.last() == sorted[sorted.len() - 1]);
                if precedes(skill.name, sorted[i].name) {
                    if i < sorted.len() - 1 {
                        precedes_then_not_after(skill.name, sorted[i].name, sorted.last().name);
                    }
                }
            } else {
                assert(out[i] == sorted[i] && out[j] == sorted[j]);
            }
        }
        assert forall|i: int| 0 <= i < sorted.len() + 1 implies (#[trigger] out[i]) == skill
            || sorted.contains(out[i]) by {
            if i < sorted.len() {
                assert(out[i] == sorted[i]);
            }
        }
    }
}

/// The summaries come in the order of their names, one for each skill that
/// was found.
pub proof fn summaries_are_sorted(dir: Seq<char>, found: Seq<(Seq<char>, Seq<char>)>, n: int)
    requires
        0 <= n <= found.len(),
    ensures
        in_name_order(summaries(dir, found, n)),
        summaries(dir, found, n).len() == n,
    decreases n,
{
    if n > 0 {
        summaries_are_sorted(dir, found, n - 1);
        insert_skill_keeps_order(summaries(dir, found, n - 1), summary_of(dir, found[n - 1]));
    }
}

/// Finds the skills below the memory directory.
pub struct SkillLoader {
    skills_dir: String,
}

impl SkillLoader {
    /// The directory that holds one directory for each skill.
    pub closed spec fn dir(&self) -> Seq<char> {
        self.skills_dir@
    }

    pub fn new(base_dir: &str) -> (l: Self)
        ensures
            l.dir() == joined(base_dir@, "skills"@),
    {
        SkillLoader { skills_dir: join_path(base_dir, "skills") }
    }

    pub fn skills_dir(&self) -> (d: &String)
        ensures
            d@ == self.dir(),
    {
        &self.skills_dir
    }

    /// Where the file of the skill `name` is.
    pub fn skill_file(&self, name: &str) -> (p: String)
        ensures
            p@ == skill_path(self.dir(), name@),
    {
        let dir = join_path(self.skills_dir.as_str(), name);
        join_path(dir.as_str(), "SKILL.md")
    }

    /// The line that describes a skill: the first line of its file that is
    /// no heading and not blank.
    pub fn describe(content: &str) -> (d: String)
        ensures
            d@ == first_description(split_lines(content@)),
    {
        let lines = lines_of(&chars_of(content));
        let mut i: usize = 0;
        assert(lines.deep_view().skip(0) =~= lines.deep_view());
        while i < lines.len()
            invariant
                i <= lines@.len(),
                lines.deep_view() == split_lines(content@),
                first_description(lines.deep_view()) == first_description(
                    lines.deep_view().skip(i as int),
                ),
            decreases lines@.len() - i,
        {
            let line = chars_of(lines[i].as_str());
            proof {
                let rest = lines.deep_view().skip(i as int);
                assert(rest[0] == line@);
                assert(rest.drop_first() =~= lines.deep_view().skip(i + 1));
            }
            let heading = line.len() > 0 && line[0] == '#';
            if !heading && !is_blank(&line) {
                let found = lines[i].clone();
                proof {
                    let rest = lines.deep_view().skip(i as int);
                    assert(describes(rest[0]));
                    assert(first_description(rest) == rest[0]);
                }
                return found;
            }
            i += 1;
        }
        assert(lines.deep_view().skip(i as int).len() == 0);
        String::new()
    }

    /// The summaries of the skills that were found, in the order of their
    /// names.
    pub fn load_summaries(&self, found: &Vec<SkillFile>) -> (skills: Vec<SkillSummary>)
        ensures
            skills.deep_view() == summaries(self.dir(), found.deep_view(), found@.len() as int),
            in_name_order(skills.deep_view()),
    {
        let mut skills: Vec<SkillSummary> = Vec::new();
        let mut n: usize = 0;
        assert(skills.deep_view() =~= summaries(self.dir(), found.deep_view(), 0));
        while n < found.len()
            invariant
                n <= found@.len(),
                skills.deep_view() == summaries(self.dir(), found.deep_view(), n as int),
            decreases found@.len() - n,
        {
            let file = &found[n];
            assert(found.deep_view()[n as int] == file@);
            let skill = SkillSummary {
                name: file.name.clone(),
                description: Self::describe(file.content.as_str()),
                path: self.skill_file(file.name.as_str()),
            };
            let name = chars_of(skill.name.as_str());
            let ghost sorted = skills.deep_view();
            let mut pos: usize = skills.len();
            assert(sorted.take(pos as int) =~= sorted && sorted.skip(pos as int) =~= Seq::<
                SkillModel,
            >::empty());
            while pos > 0 && comes_before(&name, &chars_of(skills[pos - 1].name.as_str()))
                invariant
                    pos <= skills@.len(),
                    sorted == skills.deep_view(),
                    name@ == skill@.name,
                    insert_skill(sorted, skill@) == insert_skill(sorted.take(pos as int), skill@)
                        + sorted.skip(pos as int),
                decreases pos,
            {
                proof {
                    let head = sorted.take(pos as int);
                    assert(head.last() == sorted[pos - 1]);
                    assert(head.drop_last() =~= sorted.take(pos - 1));
                    assert(seq![sorted[pos - 1]] + sorted.skip(pos as int) =~= sorted.skip(
                        pos - 1,
                    ));
                    assert(insert_skill(head.drop_last(), skill@).push(head.last()) + sorted.skip(
                        pos as int,
                    ) =~= insert_skill(head.drop_last(), skill@) + sorted.skip(pos - 1));
                }
                pos -= 1;
            }
            proof {
                let head = sorted.take(pos as int);
                assert(insert_skill(head, skill@) =~= head.push(skill@)) by {
                    if pos > 0 {
                        assert(head.last() == sorted[pos - 1]);
                    }
                }
                assert(head.push(skill@) + sorted.skip(pos as int) =~= sorted.insert(
                    pos as int,
                    skill@,
                ));
            }
            let ghost model = skill@;
            skills.insert(pos, skill);
            assert(skills.deep_view() =~= sorted.insert(pos as int, model));
            n += 1;
        }
        proof {
            summaries_are_sorted(self.dir(), found.deep_view(), found@.len() as int);
        }
        skills
    }
}

/// The summaries of the skills found below the memory directory `base_dir`.
pub fn load_skills(base_dir: &str, found: &Vec<SkillFile>) -> (skills: Vec<SkillSummary>)
    ensures
        skills.deep_view() == summaries(
            joined(base_dir@, "skills"@),
            found.deep_view(),
            found@.len() as int,
        ),
        in_name_order(skills.deep_view()),
{
    SkillLoader::new(base_dir).load_summaries(found)
}

} // verus!
