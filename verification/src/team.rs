//! Team collaboration: tasks, members, skill gaps, workload classes, code
//! ownership, learning records, and knowledge-transfer suggestions.

use vstd::prelude::*;
use crate::text::{owned, str_eq};
use crate::assoc::{Registry, names_of, assoc_map, keys_distinct, lemma_assoc_empty};

verus! {

/// A task to assign.
#[derive(Debug, Clone)]
pub struct Task {
    pub id: String,
    pub title: String,
    pub description: String,
    pub required_skills: Vec<String>,
    pub estimated_hours: u32,
    pub priority: String,
    pub complexity: String,
}

/// A member of the team; workload and availability are percentages.
#[derive(Debug, Clone)]
pub struct TeamMember {
    pub id: String,
    pub name: String,
    pub skills: Vec<String>,
    pub current_workload: u32,
    pub availability: u32,
}

/// A suggestion to pass knowledge of a skill from one member to another.
#[derive(Debug, Clone)]
pub struct KnowledgeTransferSuggestion {
    pub from_member_id: String,
    pub to_member_id: String,
    pub skill_area: String,
    pub urgency: String,
    pub suggested_method: String,
}

/// The views of a list of strings.
pub open spec fn views(v: Seq<String>) -> Seq<Seq<char>> {
    v.map_values(|s: String| s@)
}

/// Whether `skills` holds `s`.
fn has_skill(skills: &[String], s: &String) -> (r: bool)
    ensures
        r == views(skills@).contains(s@),
{
    let mut i: usize = 0;
    while i < skills.len()
        invariant
            i <= skills@.len(),
            forall|k: int| 0 <= k < i ==> skills@[k]@ != s@,
        decreases skills@.len() - i,
    {
        if str_eq(skills[i].as_str(), s.as_str()) {
            assert(views(skills@)[i as int] == s@);
            return true;
        }
        i = i + 1;
    }
    proof {
        if views(skills@).contains(s@) {
            let k = choose|k: int| 0 <= k < views(skills@).len() && views(skills@)[k] == s@;
            assert(skills@[k]@ == s@);
        }
    }
    false
}

/// The skills of a task that a member lacks, in task order.
pub open spec fn gaps(task: Seq<Seq<char>>, member: Seq<Seq<char>>) -> Seq<Seq<char>> {
    task.filter(|s: Seq<char>| !member.contains(s))
}

/// The number of required skills the member has.
pub open spec fn matched(task: Seq<Seq<char>>, member: Seq<Seq<char>>) -> nat
    decreases task.len(),
{
    if task.len() == 0 {
        0
    } else {
        matched(task.drop_last(), member) + if member.contains(task.last()) { 1nat } else { 0nat }
    }
}

/// Compares the skills a task needs with those a member has.
#[derive(Debug)]
pub struct SkillAnalyzer;

impl SkillAnalyzer {
    /// An analyzer.
    pub fn new() -> (a: SkillAnalyzer)
        ensures
            a == SkillAnalyzer,
    {
        SkillAnalyzer
    }

    /// The required skills the member lacks, in the task's order.
    pub fn analyze_skill_gaps(&self, task_skills: &[String], member_skills: &[String]) -> (r: Vec<String>)
        ensures
            views(r@) == gaps(views(task_skills@), views(member_skills@)),
    {
        let mut r: Vec<String> = Vec::new();
        let mut i: usize = 0;
        while i < task_skills.len()
            invariant
                i <= task_skills@.len(),
                views(r@) == gaps(views(task_skills@.take(i as int)), views(member_skills@)),
            decreases task_skills@.len() - i,
        {
            proof {
                reveal(Seq::filter);
                let t = views(task_skills@.take(i as int + 1));
                assert(t.drop_last() =~= views(task_skills@.take(i as int)));
                assert(t.last() == task_skills@[i as int]@);
            }
            let ghost before = r@;
            if !has_skill(member_skills, &task_skills[i]) {
                r.push(task_skills[i].clone());
                assert(views(r@) =~= views(before).push(task_skills@[i as int]@));
            }
            i = i + 1;
        }
        assert(task_skills@.take(task_skills@.len() as int) =~= task_skills@);
        r
    }

    /// How many of the required skills the member has; the skill match of a
    /// member is this count over the number of required skills.
    pub fn matched_skill_count(&self, task_skills: &[String], member_skills: &[String]) -> (n: usize)
        ensures
            n == matched(views(task_skills@), views(member_skills@)),
    {
        let mut n: usize = 0;
        let mut i: usize = 0;
        while i < task_skills.len()
            invariant
                i <= task_skills@.len(),
                n <= i,
                n == matched(views(task_skills@.take(i as int)), views(member_skills@)),
            decreases task_skills@.len() - i,
        {
            proof {
                let t = views(task_skills@.take(i as int + 1));
                assert(t.drop_last() =~= views(task_skills@.take(i as int)));
                assert(t.last() == task_skills@[i as int]@);
            }
            if has_skill(member_skills, &task_skills[i]) {
                n = n + 1;
            }
            i = i + 1;
        }
        assert(task_skills@.take(task_skills@.len() as int) =~= task_skills@);
        n
    }
}

/// The ids of the members whose workload passes a test, in team order.
pub open spec fn ids_where(team: Seq<TeamMember>, over: bool, bound: u32) -> Seq<Seq<char>>
    decreases team.len(),
{
    if team.len() == 0 {
        Seq::empty()
    } else {
        let init = ids_where(team.drop_last(), over, bound);
        let m = team.last();
        if (over && m.current_workload > bound) || (!over && m.current_workload < bound) {
            init.push(m.id@)
        } else {
            init
        }
    }
}

fn select_ids(team: &[TeamMember], over: bool, bound: u32) -> (r: Vec<String>)
    ensures
        views(r@) == ids_where(team@, over, bound),
{
    let mut r: Vec<String> = Vec::new();
    let mut i: usize = 0;
    while i < team.len()
        invariant
            i <= team@.len(),
            views(r@) == ids_where(team@.take(i as int), over, bound),
        decreases team@.len() - i,
    {
        proof {
            let t = team@.take(i as int + 1);
            assert(t.drop_last() =~= team@.take(i as int));
            assert(t.last() == team@[i as int]);
        }
        let w = team[i].current_workload;
        let ghost before = r@;
        if (over && w > bound) || (!over && w < bound) {
            r.push(team[i].id.clone());
            assert(views(r@) =~= views(before).push(team@[i as int].id@));
        }
        i = i + 1;
    }
    assert(team@.take(team@.len() as int) =~= team@);
    r
}

/// Sorts members by how loaded they are.
#[derive(Debug)]
pub struct WorkloadBalancer;

impl WorkloadBalancer {
    /// A balancer.
    pub fn new() -> (b: WorkloadBalancer)
        ensures
            b == WorkloadBalancer,
    {
        WorkloadBalancer
    }

    /// The members over 80% workload.
    pub fn identify_overloaded_members(&self, team: &[TeamMember]) -> (r: Vec<String>)
        ensures
            views(r@) == ids_where(team@, true, 80),
    {
        select_ids(team, true, 80)
    }

    /// The members under 40% workload.
    pub fn identify_underutilized_members(&self, team: &[TeamMember]) -> (r: Vec<String>)
        ensures
            views(r@) == ids_where(team@, false, 40),
    {
        select_ids(team, false, 40)
    }

    /// The suggestions of a workload report, from the overloaded and the
    /// underused members and the level of balance.
    pub fn balance_suggestions(&self, overloaded: &[String], underutilized: &[String], level: BalanceLevel) -> (r: Vec<String>)
        ensures
            views(r@) == workload_suggestions(views(overloaded@), views(underutilized@), level),
    {
        let mut r: Vec<String> = Vec::new();
        if overloaded.len() > 0 {
            let text = owned("建议将 ").concat(join_strings(overloaded).as_str()).concat(" 的任务重新分配给其他团队成员");
            r.push(text);
        }
        if underutilized.len() > 0 {
            let text = owned("可以向 ").concat(join_strings(underutilized).as_str()).concat(" 分配更多任务以提高效率");
            r.push(text);
        }
        let verdict = match level {
            BalanceLevel::Severe => owned("团队工作负载严重不平衡，建议立即进行调整"),
            BalanceLevel::Slight => owned("团队工作负载略有不平衡，可以适当调整"),
            BalanceLevel::Even => owned("团队工作负载较为平衡"),
        };
        r.push(verdict);
        assert(views(r@) =~= workload_suggestions(views(overloaded@), views(underutilized@), level));
        r
    }
}

/// How evenly a team's work is spread, as its balance score places it: under
/// one half, under four fifths, or above.
#[derive(Debug, Clone, Copy, PartialEq, Eq, Structural)]
pub enum BalanceLevel {
    Severe,
    Slight,
    Even,
}

/// Texts joined with a comma and a space between them.
pub open spec fn joined(s: Seq<Seq<char>>) -> Seq<char>
    decreases s.len(),
{
    if s.len() == 0 {
        Seq::empty()
    } else if s.len() == 1 {
        s[0]
    } else {
        joined(s.drop_last()) + ", "@ + s.last()
    }
}

/// The suggestions of a workload report: move work off the overloaded, give
/// work to the underused, and a verdict on the balance.
pub open spec fn workload_suggestions(over: Seq<Seq<char>>, under: Seq<Seq<char>>, level: BalanceLevel) -> Seq<Seq<char>> {
    (if over.len() > 0 {
        seq!["建议将 "@ + joined(over) + " 的任务重新分配给其他团队成员"@]
    } else {
        Seq::empty()
    }) + (if under.len() > 0 {
        seq!["可以向 "@ + joined(under) + " 分配更多任务以提高效率"@]
    } else {
        Seq::empty()
    }) + seq![
        match level {
            BalanceLevel::Severe => "团队工作负载严重不平衡，建议立即进行调整"@,
            BalanceLevel::Slight => "团队工作负载略有不平衡，可以适当调整"@,
            BalanceLevel::Even => "团队工作负载较为平衡"@,
        },
    ]
}

/// The texts of `v` joined with a comma and a space between them.
fn join_strings(v: &[String]) -> (r: String)
    ensures
        r@ == joined(views(v@)),
{
    if v.len() == 0 {
        return String::new();
    }
    let mut r = v[0].clone();
    proof {
        assert(views(v@).take(1).drop_last().len() == 0);
        assert(joined(views(v@).take(1)) == views(v@)[0]);
    }
    let mut i: usize = 1;
    while i < v.len()
        invariant
            1 <= i <= v@.len(),
            r@ == joined(views(v@).take(i as int)),
        decreases v@.len() - i,
    {
        r.append(", ");
        r.append(v[i].as_str());
        proof {
            let t = views(v@).take(i as int + 1);
            assert(t.drop_last() =~= views(v@).take(i as int));
            assert(t.last() == v@[i as int]@);
        }
        i = i + 1;
    }
    assert(views(v@).take(v@.len() as int) =~= views(v@));
    r
}

/// A file of the codebase with its owner; the owner's expertise in it is in
/// hundredths.
#[derive(Debug, Clone)]
pub struct CodeFile {
    pub path: String,
    pub owner_id: String,
    pub expertise_hundredths: u32,
    pub last_modified: String,
}

/// An owner of code, with the share of the codebase owned in percent.
#[derive(Debug, Clone)]
pub struct CodeOwner {
    pub id: String,
    pub name: String,
    pub expertise_areas: Vec<String>,
    pub ownership_percentage: u32,
}

/// Who owns which files, and the skills nobody covers.
#[derive(Debug, Clone)]
pub struct CodeOwnershipMap {
    pub files: Vec<CodeFile>,
    pub owners: Vec<CodeOwner>,
    pub knowledge_gaps: Vec<String>,
}

/// A list of two strings.
fn pair_of(a: &str, b: &str) -> (r: Vec<String>)
    ensures
        r@.len() == 2,
        r@[0]@ == a@,
        r@[1]@ == b@,
{
    let mut r: Vec<String> = Vec::new();
    r.push(owned(a));
    r.push(owned(b));
    r
}

/// A file under `codebase`.
fn code_file(codebase: &str, rel: &str, owner: &str, hundredths: u32, modified: &str) -> (f: CodeFile)
    ensures
        f.path@ == codebase@ + rel@,
        f.owner_id@ == owner@,
        f.expertise_hundredths == hundredths,
        f.last_modified@ == modified@,
{
    CodeFile {
        path: owned(codebase).concat(rel),
        owner_id: owned(owner),
        expertise_hundredths: hundredths,
        last_modified: owned(modified),
    }
}

/// The skills a member has learned, with the hours spent; none for a member
/// with no record.
pub open spec fn skills_of(g: Map<Seq<char>, Map<Seq<char>, u32>>, member: Seq<char>) -> Map<Seq<char>, u32> {
    if g.contains_key(member) {
        g[member]
    } else {
        Map::empty()
    }
}

/// How many elements of `s` lie in `t`.
pub open spec fn count_in(s: Seq<Seq<char>>, t: Set<Seq<char>>) -> nat
    decreases s.len(),
{
    if s.len() == 0 {
        0
    } else {
        count_in(s.drop_last(), t) + if t.contains(s.last()) { 1nat } else { 0nat }
    }
}

/// Counting the distinct elements of `s` that lie in `t` measures the
/// intersection of their sets.
proof fn lemma_count_in(s: Seq<Seq<char>>, t: Set<Seq<char>>)
    requires
        s.no_duplicates(),
    ensures
        s.to_set().finite(),
        count_in(s, t) == s.to_set().intersect(t).len(),
    decreases s.len(),
{
    broadcast use vstd::set::group_set_axioms, vstd::seq_lib::seq_to_set_is_finite;

    if s.len() == 0 {
        assert(s.to_set() =~= Set::empty());
        assert(s.to_set().intersect(t) =~= Set::empty());
    } else {
        let init = s.drop_last();
        let x = s.last();
        assert forall|i: int, j: int| 0 <= i < init.len() && 0 <= j < init.len() && i != j implies init[i] != init[j] by {
            assert(init[i] == s[i] && init[j] == s[j]);
        }
        lemma_count_in(init, t);
        assert forall|a: Seq<char>| #[trigger] s.to_set().contains(a) == init.to_set().insert(x).contains(a) by {
            if s.contains(a) && a != x {
                let i = choose|i: int| 0 <= i < s.len() && s[i] == a;
                assert(i != s.len() - 1);
                assert(init[i] == a);
            }
            if init.contains(a) {
                let i = choose|i: int| 0 <= i < init.len() && init[i] == a;
                assert(s[i] == a);
            }
            if a == x {
                assert(s[s.len() - 1] == x);
            }
        }
        assert(s.to_set() =~= init.to_set().insert(x));
        assert(!init.to_set().contains(x)) by {
            if init.contains(x) {
                let i = choose|i: int| 0 <= i < init.len() && init[i] == x;
                assert(s[i] == s[s.len() - 1]);
            }
        }
        if t.contains(x) {
            assert(s.to_set().intersect(t) =~= init.to_set().intersect(t).insert(x));
        } else {
            assert(s.to_set().intersect(t) =~= init.to_set().intersect(t));
        }
    }
}

/// A list that names the keys of a map, each once, has those keys as its set.
proof fn lemma_names_set<V>(names: Seq<String>, m: Map<Seq<char>, V>)
    requires
        names_of(names, m),
    ensures
        views(names).no_duplicates(),
        views(names).to_set() == m.dom(),
        m.dom().finite(),
        m.dom().len() == names.len(),
{
    broadcast use vstd::seq_lib::seq_to_set_is_finite;

    let s = views(names);
    assert forall|i: int, j: int| 0 <= i < s.len() && 0 <= j < s.len() && i != j implies s[i] != s[j] by {
        assert(s[i] == names[i]@ && s[j] == names[j]@);
    }
    assert forall|k: Seq<char>| #[trigger] s.to_set().contains(k) == m.dom().contains(k) by {
        if m.contains_key(k) {
            let i = choose|i: int| 0 <= i < names.len() && #[trigger] names[i]@ == k;
            assert(s[i] == k);
        }
        if s.contains(k) {
            let i = choose|i: int| 0 <= i < s.len() && s[i] == k;
            assert(names[i]@ == k);
        }
    }
    assert(s.to_set() =~= m.dom());
    s.unique_seq_to_set();
}

/// Learning records: by member, the hours spent on each skill.
#[derive(Debug)]
pub struct KnowledgeTracker {
    knowledge_graph: Registry<Registry<u32>>,
}

impl KnowledgeTracker {
    /// The records: member, then skill, to hours.
    pub closed spec fn graph(&self) -> Map<Seq<char>, Map<Seq<char>, u32>> {
        self.knowledge_graph.map().map_values(|r: Registry<u32>| r.map())
    }

    /// No records.
    pub fn new() -> (t: KnowledgeTracker)
        ensures
            t.graph() == Map::<Seq<char>, Map<Seq<char>, u32>>::empty(),
    {
        let t = KnowledgeTracker { knowledge_graph: Registry::new() };
        assert(t.graph() =~= Map::<Seq<char>, Map<Seq<char>, u32>>::empty());
        t
    }

    /// Records that the member spent `hours` on `skill`, replacing an earlier
    /// record of that skill.
    pub fn record_learning_activity(&mut self, member_id: &str, skill: &str, hours: u32)
        ensures
            final(self).graph() == old(self).graph().insert(
                member_id@,
                skills_of(old(self).graph(), member_id@).insert(skill@, hours),
            ),
    {
        let ghost g0 = self.graph();
        let mut inner = match self.knowledge_graph.take(member_id) {
            Some(r) => r,
            None => Registry::new(),
        };
        assert(inner.map() == skills_of(g0, member_id@));
        inner.insert(owned(skill), hours);
        self.knowledge_graph.insert(owned(member_id), inner);
        assert(self.graph() =~= g0.insert(member_id@, skills_of(g0, member_id@).insert(skill@, hours)));
    }

    /// The skills of a member with their hours; none for an unknown member.
    pub fn get_knowledge_graph(&self, member_id: &str) -> (r: Vec<(String, u32)>)
        ensures
            keys_distinct(r@),
            assoc_map(r@) == skills_of(self.graph(), member_id@),
    {
        match self.knowledge_graph.get(member_id) {
            Some(inner) => inner.to_pairs(),
            None => {
                let r: Vec<(String, u32)> = Vec::new();
                proof {
                    lemma_assoc_empty(r@);
                }
                r
            },
        }
    }

    /// The names of a member's skills, each once.
    fn skill_names(&self, member_id: &str) -> (r: Vec<String>)
        ensures
            names_of(r@, skills_of(self.graph(), member_id@)),
    {
        match self.knowledge_graph.get(member_id) {
            Some(inner) => inner.names(),
            None => {
                let r: Vec<String> = Vec::new();
                assert forall|k: Seq<char>| !skills_of(self.graph(), member_id@).contains_key(k) by {}
                r
            },
        }
    }

    /// The skills the two members share, and the skills either has: the
    /// knowledge overlap of the two is the first over the second, and nothing
    /// where the second is zero.
    pub fn knowledge_overlap_counts(&self, member1: &str, member2: &str) -> (r: (usize, u128))
        ensures
            r.0 == skills_of(self.graph(), member1@).dom().intersect(skills_of(self.graph(), member2@).dom()).len(),
            r.1 == skills_of(self.graph(), member1@).dom().union(skills_of(self.graph(), member2@).dom()).len(),
    {
        let names1 = self.skill_names(member1);
        let names2 = self.skill_names(member2);
        let ghost dom1 = skills_of(self.graph(), member1@).dom();
        let ghost dom2 = skills_of(self.graph(), member2@).dom();
        proof {
            lemma_names_set(names1@, skills_of(self.graph(), member1@));
            lemma_names_set(names2@, skills_of(self.graph(), member2@));
        }
        let mut common: usize = 0;
        let mut i: usize = 0;
        while i < names1.len()
            invariant
                i <= names1@.len(),
                common <= i,
                views(names2@).to_set() == dom2,
                common == count_in(views(names1@).take(i as int), dom2),
            decreases names1@.len() - i,
        {
            proof {
                let t = views(names1@).take(i as int + 1);
                assert(t.drop_last() =~= views(names1@).take(i as int));
                assert(t.last() == names1@[i as int]@);
            }
            if has_skill(names2.as_slice(), &names1[i]) {
                common = common + 1;
            }
            i = i + 1;
        }
        proof {
            assert(views(names1@).take(names1@.len() as int) =~= views(names1@));
            lemma_count_in(views(names1@), dom2);
            vstd::set_lib::lemma_set_intersect_union_lens(dom1, dom2);
        }
        let total: u128 = names1.len() as u128 + names2.len() as u128 - common as u128;
        (common, total)
    }
}

/// Task assignment, workload balance, code ownership and knowledge transfer
/// for a team.
#[derive(Debug)]
pub struct TeamCollaborationOptimizer {
    pub skill_analyzer: SkillAnalyzer,
    pub workload_balancer: WorkloadBalancer,
    pub knowledge_tracker: KnowledgeTracker,
}

impl TeamCollaborationOptimizer {
    /// An optimizer with no learning records.
    pub fn new() -> (o: TeamCollaborationOptimizer)
        ensures
            o.knowledge_tracker.graph() == Map::<Seq<char>, Map<Seq<char>, u32>>::empty(),
    {
        TeamCollaborationOptimizer {
            skill_analyzer: SkillAnalyzer::new(),
            workload_balancer: WorkloadBalancer::new(),
            knowledge_tracker: KnowledgeTracker::new(),
        }
    }

    /// The ownership of the codebase at `codebase`: `src/auth.rs` and `src/db.rs`
    /// belong to DEV-001 (Alice, Rust and Security, 65%), `src/api.rs` to DEV-002
    /// (Bob, JavaScript and API, 35%), and DevOps, Testing and Security are the
    /// knowledge gaps.
    pub fn analyze_code_ownership(&self, codebase: &str) -> (r: Result<CodeOwnershipMap, String>)
        ensures
            r matches Ok(m) && {
                &&& m.files@.len() == 3
                &&& m.files@[0].path@ == codebase@ + "/src/auth.rs"@
                &&& m.files@[0].owner_id@ == "DEV-001"@
                &&& m.files@[0].expertise_hundredths == 95
                &&& m.files@[0].last_modified@ == "2024-12-01"@
                &&& m.files@[1].path@ == codebase@ + "/src/api.rs"@
                &&& m.files@[1].owner_id@ == "DEV-002"@
                &&& m.files@[1].expertise_hundredths == 88
                &&& m.files@[1].last_modified@ == "2024-12-05"@
                &&& m.files@[2].path@ == codebase@ + "/src/db.rs"@
                &&& m.files@[2].owner_id@ == "DEV-001"@
                &&& m.files@[2].expertise_hundredths == 92
                &&& m.files@[2].last_modified@ == "2024-11-28"@
                &&& m.owners@.len() == 2
                &&& m.owners@[0].id@ == "DEV-001"@
                &&& m.owners@[0].name@ == "Alice"@
                &&& views(m.owners@[0].expertise_areas@) == seq!["Rust"@, "Security"@]
                &&& m.owners@[0].ownership_percentage == 65
                &&& m.owners@[1].id@ == "DEV-002"@
                &&& m.owners@[1].name@ == "Bob"@
                &&& views(m.owners@[1].expertise_areas@) == seq!["JavaScript"@, "API"@]
                &&& m.owners@[1].ownership_percentage == 35
                &&& views(m.knowledge_gaps@) == seq!["DevOps"@, "Testing"@, "Security"@]
            },
    {
        let mut files: Vec<CodeFile> = Vec::new();
        files.push(code_file(codebase, "/src/auth.rs", "DEV-001", 95, "2024-12-01"));
        files.push(code_file(codebase, "/src/api.rs", "DEV-002", 88, "2024-12-05"));
        files.push(code_file(codebase, "/src/db.rs", "DEV-001", 92, "2024-11-28"));
        let mut owners: Vec<CodeOwner> = Vec::new();
        owners.push(CodeOwner {
            id: owned("DEV-001"),
            name: owned("Alice"),
            expertise_areas: pair_of("Rust", "Security"),
            ownership_percentage: 65,
        });
        owners.push(CodeOwner {
            id: owned("DEV-002"),
            name: owned("Bob"),
            expertise_areas: pair_of("JavaScript", "API"),
            ownership_percentage: 35,
        });
        let mut gaps: Vec<String> = Vec::new();
        gaps.push(owned("DevOps"));
        gaps.push(owned("Testing"));
        gaps.push(owned("Security"));
        let m = CodeOwnershipMap { files, owners, knowledge_gaps: gaps };
        assert(views(m.owners@[0].expertise_areas@) =~= seq!["Rust"@, "Security"@]);
        assert(views(m.owners@[1].expertise_areas@) =~= seq!["JavaScript"@, "API"@]);
        assert(views(m.knowledge_gaps@) =~= seq!["DevOps"@, "Testing"@, "Security"@]);
        Ok(m)
    }

    /// One pairing suggestion per knowledge gap of the map: from DEV-001 to
    /// DEV-002, of medium urgency, by pair programming.
    pub fn suggest_knowledge_transfer(&self, ownership_map: &CodeOwnershipMap) -> (r: Result<Vec<KnowledgeTransferSuggestion>, String>)
        ensures
            r matches Ok(v) && v@.len() == ownership_map.knowledge_gaps@.len() && forall|i: int| 0 <= i < v@.len() ==> {
                &&& (#[trigger] v@[i]).skill_area@ == ownership_map.knowledge_gaps@[i]@
                &&& v@[i].from_member_id@ == "DEV-001"@
                &&& v@[i].to_member_id@ == "DEV-002"@
                &&& v@[i].urgency@ == "Medium"@
                &&& v@[i].suggested_method@ == "Pair Programming"@
            },
    {
        let knowledge_gaps = &ownership_map.knowledge_gaps;
        let mut v: Vec<KnowledgeTransferSuggestion> = Vec::new();
        let mut i: usize = 0;
        while i < knowledge_gaps.len()
            invariant
                i <= knowledge_gaps@.len(),
                v@.len() == i,
                forall|k: int| 0 <= k < i ==> {
                    &&& (#[trigger] v@[k]).skill_area@ == knowledge_gaps@[k]@
                    &&& v@[k].from_member_id@ == "DEV-001"@
                    &&& v@[k].to_member_id@ == "DEV-002"@
                    &&& v@[k].urgency@ == "Medium"@
                    &&& v@[k].suggested_method@ == "Pair Programming"@
                },
            decreases knowledge_gaps@.len() - i,
        {
            v.push(KnowledgeTransferSuggestion {
                from_member_id: owned("DEV-001"),
                to_member_id: owned("DEV-002"),
                skill_area: knowledge_gaps[i].clone(),
                urgency: owned("Medium"),
                suggested_method: owned("Pair Programming"),
            });
            i = i + 1;
        }
        Ok(v)
    }
}

impl Default for SkillAnalyzer {
    fn default() -> (a: SkillAnalyzer)
        ensures
            a == SkillAnalyzer,
    {
        SkillAnalyzer
    }
}

impl Default for WorkloadBalancer {
    fn default() -> (b: WorkloadBalancer)
        ensures
            b == WorkloadBalancer,
    {
        WorkloadBalancer
    }
}

impl Default for TeamCollaborationOptimizer {
    fn default() -> (o: TeamCollaborationOptimizer)
        ensures
            o.knowledge_tracker.graph() == Map::<Seq<char>, Map<Seq<char>, u32>>::empty(),
    {
        TeamCollaborationOptimizer::new()
    }
}

impl Default for KnowledgeTracker {
    fn default() -> (t: KnowledgeTracker)
        ensures
            t.graph() == Map::<Seq<char>, Map<Seq<char>, u32>>::empty(),
    {
        KnowledgeTracker::new()
    }
}

/// A read of a member's learning records gives back the hours of the last
/// record of each skill, and a record leaves the other members and skills as
/// they were.
pub proof fn law_record_then_read(
    g: Map<Seq<char>, Map<Seq<char>, u32>>,
    member: Seq<char>,
    skill: Seq<char>,
    hours: u32,
    other_member: Seq<char>,
    other_skill: Seq<char>,
)
    requires
        other_member != member,
        other_skill != skill,
    ensures
        ({
            let g2 = g.insert(member, skills_of(g, member).insert(skill, hours));
            &&& skills_of(g2, member).contains_key(skill)
            &&& skills_of(g2, member)[skill] == hours
            &&& skills_of(g2, member).contains_key(other_skill) == skills_of(g, member).contains_key(other_skill)
            &&& skills_of(g, member).contains_key(other_skill) ==> skills_of(g2, member)[other_skill] == skills_of(g, member)[other_skill]
            &&& skills_of(g2, other_member) == skills_of(g, other_member)
        }),
{
}

/// The shared skills of two members are never more than the skills either of
/// them has, and the overlap counts do not depend on the order of the two.
pub proof fn law_overlap_bounded_symmetric(a: Set<Seq<char>>, b: Set<Seq<char>>)
    requires
        a.finite(),
        b.finite(),
    ensures
        a.intersect(b).len() <= a.union(b).len(),
        a.intersect(b).len() == b.intersect(a).len(),
        a.union(b).len() == b.union(a).len(),
{
    assert(a.intersect(b) =~= b.intersect(a));
    assert(a.union(b) =~= b.union(a));
    vstd::set_lib::lemma_len_subset(a.intersect(b), a.union(b));
}

/// A member is never both overloaded and underused.
pub proof fn law_workload_classes_disjoint(w: u32)
    ensures
        !(w > 80 && w < 40),
{
}

} // verus!
