//! The resolver: turns a position into the fully denormalized public form of
//! the entity stored there, recursively embedding everything it references —
//! skills into employees, employees and their skills into projects.

use vstd::prelude::*;

verus! {

use crate::digits::{decimal_digits, position_id};
use crate::store::{Context, State};

/// A fully resolved skill, as handed to the query layer. `id` is the
/// stringified position of the skill in the store.
#[derive(Debug, PartialEq, Eq)]
pub struct Skill {
    pub id: String,
    pub description: String,
}

/// A fully resolved employee: its skill references embedded, in order.
#[derive(Debug, PartialEq, Eq)]
pub struct Employee {
    pub id: String,
    pub first_name: Option<String>,
    pub last_name: String,
    pub skills: Vec<Skill>,
}

/// A fully resolved project: required skills, the responsible employee and
/// every assigned employee embedded, each in stored order.
#[derive(Debug, PartialEq, Eq)]
pub struct Project {
    pub id: String,
    pub short: String,
    pub description: Option<String>,
    pub state: State,
    pub skills_required: Vec<Skill>,
    pub responsible: Employee,
    pub assigned: Vec<Employee>,
}

/// Two optional strings hold the same text.
pub open spec fn opt_str_eq(a: Option<String>, b: Option<String>) -> bool {
    match (a, b) {
        (Option::Some(x), Option::Some(y)) => x@ == y@,
        (Option::None, Option::None) => true,
        _ => false,
    }
}

/// `s` is the resolution of the skill stored at position `sid`: the
/// stringified position as `id`, the stored description copied.
pub open spec fn skill_matches(ctx: Context, sid: int, s: Skill) -> bool {
    &&& 0 <= sid < ctx.skills@.len()
    &&& s.id@ == decimal_digits(sid as nat)
    &&& s.description@ == ctx.skills@[sid]@
}

/// `e` is the resolution of the employee stored at position `eid`: scalar
/// fields copied, every skill reference embedded in stored order.
pub open spec fn employee_matches(ctx: Context, eid: int, e: Employee) -> bool {
    &&& 0 <= eid < ctx.employees@.len()
    &&& e.id@ == decimal_digits(eid as nat)
    &&& opt_str_eq(e.first_name, ctx.employees@[eid].first_name)
    &&& e.last_name@ == ctx.employees@[eid].last_name@
    &&& e.skills@.len() == ctx.employees@[eid].skills@.len()
    &&& forall|j: int|
        0 <= j < e.skills@.len() ==> skill_matches(
            ctx,
            ctx.employees@[eid].skills@[j] as int,
            #[trigger] e.skills@[j],
        )
}

/// `p` is the resolution of the project stored at position `pid`: scalar
/// fields copied, every reference embedded in stored order.
pub open spec fn project_matches(ctx: Context, pid: int, p: Project) -> bool {
    &&& 0 <= pid < ctx.projects@.len()
    &&& p.id@ == decimal_digits(pid as nat)
    &&& p.short@ == ctx.projects@[pid].short@
    &&& opt_str_eq(p.description, ctx.projects@[pid].description)
    &&& p.state == ctx.projects@[pid].state
    &&& p.skills_required@.len() == ctx.projects@[pid].skills_required@.len()
    &&& forall|j: int|
        0 <= j < p.skills_required@.len() ==> skill_matches(
            ctx,
            ctx.projects@[pid].skills_required@[j] as int,
            #[trigger] p.skills_required@[j],
        )
    &&& employee_matches(ctx, ctx.projects@[pid].responsible as int, p.responsible)
    &&& p.assigned@.len() == ctx.projects@[pid].assigned@.len()
    &&& forall|j: int|
        0 <= j < p.assigned@.len() ==> employee_matches(
            ctx,
            ctx.projects@[pid].assigned@[j] as int,
            #[trigger] p.assigned@[j],
        )
}

/// The contract of skill resolution: success exactly on in-range positions,
/// and the result then matches the stored skill.
pub open spec fn skill_resolution(ctx: Context, pos: int, r: Option<Skill>) -> bool {
    &&& (r is Some <==> 0 <= pos < ctx.skills@.len())
    &&& (r is Some ==> skill_matches(ctx, pos, r.unwrap()))
}

/// The contract of employee resolution: success exactly on in-range
/// positions, and the result then matches the stored employee.
pub open spec fn employee_resolution(ctx: Context, pos: int, r: Option<Employee>) -> bool {
    &&& (r is Some <==> 0 <= pos < ctx.employees@.len())
    &&& (r is Some ==> employee_matches(ctx, pos, r.unwrap()))
}

/// The contract of project resolution: success exactly on in-range
/// positions, and the result then matches the stored project.
pub open spec fn project_resolution(ctx: Context, pos: int, r: Option<Project>) -> bool {
    &&& (r is Some <==> 0 <= pos < ctx.projects@.len())
    &&& (r is Some ==> project_matches(ctx, pos, r.unwrap()))
}

/// Copy an optional string, text preserved.
fn clone_opt_string(o: &Option<String>) -> (r: Option<String>)
    ensures
        opt_str_eq(r, *o),
{
    match o {
        Some(s) => Some(s.clone()),
        None => None,
    }
}

impl Context {
    /// Materialize the skill at `pos`: its stringified position and a copy
    /// of its description. `None` exactly when `pos` is out of range.
    pub fn resolve_skill(&self, pos: usize) -> (r: Option<Skill>)
        ensures
            skill_resolution(*self, pos as int, r),
    {
        if pos < self.skills.len() {
            Some(Skill { id: position_id(pos), description: self.skills[pos].clone() })
        } else {
            None
        }
    }

    /// Materialize the employee at `pos`, embedding each referenced skill in
    /// stored order. `None` exactly when `pos` is out of range; under `wf`
    /// every embedded reference resolves.
    pub fn resolve_employee(&self, pos: usize) -> (r: Option<Employee>)
        requires
            self.wf(),
        ensures
            employee_resolution(*self, pos as int, r),
    {
        if pos >= self.employees.len() {
            return None;
        }
        let emp = &self.employees[pos];
        let n = emp.skills.len();
        let mut skills: Vec<Skill> = Vec::new();
        let mut j: usize = 0;
        while j < n
            invariant
                self.wf(),
                pos < self.employees@.len(),
                emp == self.employees@[pos as int],
                n == emp.skills@.len(),
                j <= n,
                skills@.len() == j,
                forall|k: int|
                    0 <= k < j ==> skill_matches(
                        *self,
                        emp.skills@[k] as int,
                        #[trigger] skills@[k],
                    ),
            decreases n - j,
        {
            let sid = emp.skills[j];
            let s = self.resolve_skill(sid);
            skills.push(s.unwrap());
            j += 1;
        }
        Some(
            Employee {
                id: position_id(pos),
                first_name: clone_opt_string(&emp.first_name),
                last_name: emp.last_name.clone(),
                skills,
            },
        )
    }

    /// Materialize the project at `pos`: required skills, the responsible
    /// employee and every assigned employee embedded, each in stored order.
    /// `None` exactly when `pos` is out of range; under `wf` every embedded
    /// reference resolves.
    pub fn resolve_project(&self, pos: usize) -> (r: Option<Project>)
        requires
            self.wf(),
        ensures
            project_resolution(*self, pos as int, r),
    {
        if pos >= self.projects.len() {
            return None;
        }
        let proj = &self.projects[pos];
        let n_skills = proj.skills_required.len();
        let mut skills_required: Vec<Skill> = Vec::new();
        let mut j: usize = 0;
        while j < n_skills
            invariant
                self.wf(),
                pos < self.projects@.len(),
                proj == self.projects@[pos as int],
                proj.refs_valid(self.skills@.len() as int, self.employees@.len() as int),
                n_skills == proj.skills_required@.len(),
                j <= n_skills,
                skills_required@.len() == j,
                forall|k: int|
                    0 <= k < j ==> skill_matches(
                        *self,
                        proj.skills_required@[k] as int,
                        #[trigger] skills_required@[k],
                    ),
            decreases n_skills - j,
        {
            let sid = proj.skills_required[j];
            let s = self.resolve_skill(sid);
            skills_required.push(s.unwrap());
            j += 1;
        }

        let responsible = self.resolve_employee(proj.responsible).unwrap();

        let n_assigned = proj.assigned.len();
        let mut assigned: Vec<Employee> = Vec::new();
        let mut j: usize = 0;
        while j < n_assigned
            invariant
                self.wf(),
                pos < self.projects@.len(),
                proj == self.projects@[pos as int],
                proj.refs_valid(self.skills@.len() as int, self.employees@.len() as int),
                n_assigned == proj.assigned@.len(),
                j <= n_assigned,
                assigned@.len() == j,
                forall|k: int|
                    0 <= k < j ==> employee_matches(
                        *self,
                        proj.assigned@[k] as int,
                        #[trigger] assigned@[k],
                    ),
            decreases n_assigned - j,
        {
            let eid = proj.assigned[j];
            let e = self.resolve_employee(eid);
            assigned.push(e.unwrap());
            j += 1;
        }

        Some(
            Project {
                id: position_id(pos),
                short: proj.short.clone(),
                description: clone_opt_string(&proj.description),
                state: proj.state,
                skills_required,
                responsible,
                assigned,
            },
        )
    }
}

} // verus!
