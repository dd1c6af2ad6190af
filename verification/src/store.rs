//! The identity store: three append-only collections of entities, each
//! addressed by its 0-based position, with cross-references held as plain
//! positions rather than embedded copies.

use vstd::prelude::*;

verus! {

/// The lifecycle state of a project.
#[derive(Clone, Copy, Debug, PartialEq, Eq, Structural)]
pub enum State {
    Planning,
    Ongoing,
    Finished,
}

/// An employee as stored: each skill held as a position into the skill
/// collection.
#[derive(Debug)]
pub struct InternalEmployee {
    pub first_name: Option<String>,
    pub last_name: String,
    pub skills: Vec<usize>,
}

/// A project as stored: all cross-references held as positions, the single
/// required `responsible` employee included.
#[derive(Debug)]
pub struct InternalProject {
    pub short: String,
    pub description: Option<String>,
    pub state: State,
    pub skills_required: Vec<usize>,
    pub responsible: usize,
    pub assigned: Vec<usize>,
}

/// The normalized store. A skill is just its description; its identity is
/// its position.
#[derive(Debug)]
pub struct Context {
    pub skills: Vec<String>,
    pub employees: Vec<InternalEmployee>,
    pub projects: Vec<InternalProject>,
}

impl InternalEmployee {
    /// Every skill reference points inside a skill collection of `n_skills`
    /// entries.
    pub open spec fn refs_valid(&self, n_skills: int) -> bool {
        forall|j: int| 0 <= j < self.skills@.len() ==> (#[trigger] self.skills@[j]) < n_skills
    }
}

impl InternalProject {
    /// Every reference points at an existing skill or employee.
    pub open spec fn refs_valid(&self, n_skills: int, n_employees: int) -> bool {
        &&& forall|j: int|
            0 <= j < self.skills_required@.len() ==> (#[trigger] self.skills_required@[j])
                < n_skills
        &&& (self.responsible as int) < n_employees
        &&& forall|j: int|
            0 <= j < self.assigned@.len() ==> (#[trigger] self.assigned@[j]) < n_employees
    }
}

/// Does every reference in a list of positions stay below `bound`?
fn refs_in_range(refs: &Vec<usize>, bound: usize) -> (b: bool)
    ensures
        b == forall|j: int| 0 <= j < refs@.len() ==> (#[trigger] refs@[j]) < bound,
{
    let n = refs.len();
    let mut j: usize = 0;
    while j < n
        invariant
            j <= n,
            n == refs@.len(),
            forall|k: int| 0 <= k < j ==> (#[trigger] refs@[k]) < bound,
        decreases n - j,
    {
        if refs[j] >= bound {
            return false;
        }
        j += 1;
    }
    true
}

impl Context {
    /// Referential integrity: every reference held anywhere in the store
    /// points at an existing entity. Established at construction and never
    /// broken afterwards, since the store is read-only.
    pub open spec fn wf(&self) -> bool {
        &&& forall|i: int|
            0 <= i < self.employees@.len() ==> (#[trigger] self.employees@[i]).refs_valid(
                self.skills@.len() as int,
            )
        &&& forall|i: int|
            0 <= i < self.projects@.len() ==> (#[trigger] self.projects@[i]).refs_valid(
                self.skills@.len() as int,
                self.employees@.len() as int,
            )
    }

    /// Decide referential integrity of the whole store.
    pub fn check_wf(&self) -> (b: bool)
        ensures
            b == self.wf(),
    {
        let n_skills = self.skills.len();
        let n_employees = self.employees.len();

        let mut i: usize = 0;
        while i < n_employees
            invariant
                i <= n_employees,
                n_skills == self.skills@.len(),
                n_employees == self.employees@.len(),
                forall|k: int|
                    0 <= k < i ==> (#[trigger] self.employees@[k]).refs_valid(n_skills as int),
            decreases n_employees - i,
        {
            if !refs_in_range(&self.employees[i].skills, n_skills) {
                return false;
            }
            i += 1;
        }

        let n_projects = self.projects.len();
        let mut i: usize = 0;
        while i < n_projects
            invariant
                i <= n_projects,
                n_skills == self.skills@.len(),
                n_employees == self.employees@.len(),
                n_projects == self.projects@.len(),
                forall|k: int|
                    0 <= k < self.employees@.len() ==> (#[trigger] self.employees@[k]).refs_valid(
                        n_skills as int,
                    ),
                forall|k: int|
                    0 <= k < i ==> (#[trigger] self.projects@[k]).refs_valid(
                        n_skills as int,
                        n_employees as int,
                    ),
            decreases n_projects - i,
        {
            let p = &self.projects[i];
            if !refs_in_range(&p.skills_required, n_skills) {
                return false;
            }
            if p.responsible >= n_employees {
                return false;
            }
            if !refs_in_range(&p.assigned, n_employees) {
                return false;
            }
            i += 1;
        }
        true
    }

    /// Integrity-preserving construction: accept the collections only when
    /// every reference resolves, so that `wf` holds of every store this
    /// returns.
    pub fn new(
        skills: Vec<String>,
        employees: Vec<InternalEmployee>,
        projects: Vec<InternalProject>,
    ) -> (r: Option<Context>)
        ensures
            match r {
                Some(ctx) => {
                    &&& ctx.wf()
                    &&& ctx.skills == skills
                    &&& ctx.employees == employees
                    &&& ctx.projects == projects
                },
                None => !(Context { skills, employees, projects }).wf(),
            },
    {
        let ctx = Context { skills, employees, projects };
        if ctx.check_wf() {
            Some(ctx)
        } else {
            None
        }
    }

    /// Read the skill at `pos`; `None` exactly when `pos` is outside the
    /// collection.
    pub fn get_skill(&self, pos: usize) -> (r: Option<&String>)
        ensures
            match r {
                Some(s) => pos < self.skills@.len() && s == self.skills@[pos as int],
                None => pos >= self.skills@.len(),
            },
    {
        if pos < self.skills.len() {
            Some(&self.skills[pos])
        } else {
            None
        }
    }

    /// Read the employee at `pos`; `None` exactly when `pos` is outside the
    /// collection.
    pub fn get_employee(&self, pos: usize) -> (r: Option<&InternalEmployee>)
        ensures
            match r {
                Some(e) => pos < self.employees@.len() && e == self.employees@[pos as int],
                None => pos >= self.employees@.len(),
            },
    {
        if pos < self.employees.len() {
            Some(&self.employees[pos])
        } else {
            None
        }
    }

    /// Read the project at `pos`; `None` exactly when `pos` is outside the
    /// collection.
    pub fn get_project(&self, pos: usize) -> (r: Option<&InternalProject>)
        ensures
            match r {
                Some(p) => pos < self.projects@.len() && p == self.projects@[pos as int],
                None => pos >= self.projects@.len(),
            },
    {
        if pos < self.projects.len() {
            Some(&self.projects[pos])
        } else {
            None
        }
    }

    /// Every stored skill with its position, in insertion order.
    pub fn list_skills(&self) -> (r: Vec<(usize, &String)>)
        ensures
            list_skills_output(*self, r@),
    {
        let n = self.skills.len();
        let mut r: Vec<(usize, &String)> = Vec::new();
        let mut i: usize = 0;
        while i < n
            invariant
                i <= n,
                n == self.skills@.len(),
                r@.len() == i,
                forall|k: int|
                    0 <= k < i ==> (#[trigger] r@[k]).0 == k && r@[k].1 == self.skills@[k],
            decreases n - i,
        {
            r.push((i, &self.skills[i]));
            i += 1;
        }
        r
    }

    /// Every stored employee with its position, in insertion order.
    pub fn list_employees(&self) -> (r: Vec<(usize, &InternalEmployee)>)
        ensures
            list_employees_output(*self, r@),
    {
        let n = self.employees.len();
        let mut r: Vec<(usize, &InternalEmployee)> = Vec::new();
        let mut i: usize = 0;
        while i < n
            invariant
                i <= n,
                n == self.employees@.len(),
                r@.len() == i,
                forall|k: int|
                    0 <= k < i ==> (#[trigger] r@[k]).0 == k && r@[k].1 == self.employees@[k],
            decreases n - i,
        {
            r.push((i, &self.employees[i]));
            i += 1;
        }
        r
    }

    /// Every stored project with its position, in insertion order.
    pub fn list_projects(&self) -> (r: Vec<(usize, &InternalProject)>)
        ensures
            list_projects_output(*self, r@),
    {
        let n = self.projects.len();
        let mut r: Vec<(usize, &InternalProject)> = Vec::new();
        let mut i: usize = 0;
        while i < n
            invariant
                i <= n,
                n == self.projects@.len(),
                r@.len() == i,
                forall|k: int|
                    0 <= k < i ==> (#[trigger] r@[k]).0 == k && r@[k].1 == self.projects@[k],
            decreases n - i,
        {
            r.push((i, &self.projects[i]));
            i += 1;
        }
        r
    }
}

/// What `list_skills` hands out: every position paired with its skill, in
/// insertion order.
pub open spec fn list_skills_output(ctx: Context, out: Seq<(usize, &String)>) -> bool {
    &&& out.len() == ctx.skills@.len()
    &&& forall|i: int| 0 <= i < out.len() ==> (#[trigger] out[i]).0 == i && out[i].1 == ctx.skills@[i]
}

/// What `list_employees` hands out: every position paired with its employee,
/// in insertion order.
pub open spec fn list_employees_output(ctx: Context, out: Seq<(usize, &InternalEmployee)>) -> bool {
    &&& out.len() == ctx.employees@.len()
    &&& forall|i: int|
        0 <= i < out.len() ==> (#[trigger] out[i]).0 == i && out[i].1 == ctx.employees@[i]
}

/// What `list_projects` hands out: every position paired with its project,
/// in insertion order.
pub open spec fn list_projects_output(ctx: Context, out: Seq<(usize, &InternalProject)>) -> bool {
    &&& out.len() == ctx.projects@.len()
    &&& forall|i: int|
        0 <= i < out.len() ==> (#[trigger] out[i]).0 == i && out[i].1 == ctx.projects@[i]
}

} // verus!
