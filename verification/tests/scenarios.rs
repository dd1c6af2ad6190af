use skill_graph::facade::Queries;
use skill_graph::store::{Context, InternalEmployee, InternalProject, State};

fn scenario_store() -> Context {
    Context::new(
        vec!["Dancing".to_owned(), "Singing".to_owned()],
        vec![InternalEmployee {
            first_name: Some("Michael".to_owned()),
            last_name: "Jackson".to_owned(),
            skills: vec![0, 1],
        }],
        vec![InternalProject {
            short: "One of the greatest pop songs of all time!".to_owned(),
            description: None,
            state: State::Finished,
            skills_required: vec![0, 1],
            responsible: 0,
            assigned: vec![],
        }],
    )
    .expect("scenario store is well formed")
}

#[test]
fn projects_resolve_the_scenario_store_fully() {
    let ctx = scenario_store();
    let projects = Queries::projects(&ctx);
    assert_eq!(projects.len(), 1);
    let p = &projects[0];
    assert_eq!(p.id, "0");
    assert_eq!(p.description, None);
    assert_eq!(p.short, "One of the greatest pop songs of all time!");
    assert_eq!(p.state, State::Finished);
    assert_eq!(p.responsible.last_name, "Jackson");
    let skill_descriptions: Vec<&str> = p
        .responsible
        .skills
        .iter()
        .map(|s| s.description.as_str())
        .collect();
    assert_eq!(skill_descriptions, vec!["Dancing", "Singing"]);
    assert!(p.assigned.is_empty());
}

#[test]
fn empty_store_yields_empty_results_not_errors() {
    let ctx = Context::new(vec![], vec![], vec![]).expect("empty store is well formed");
    assert!(Queries::skills(&ctx).is_empty());
    assert!(Queries::employees(&ctx).is_empty());
    assert!(Queries::projects(&ctx).is_empty());
}

#[test]
fn skills_on_a_two_skill_store_come_back_in_order() {
    let ctx = scenario_store();
    let skills = Queries::skills(&ctx);
    assert_eq!(skills.len(), 2);
    assert_eq!(skills[0].id, "0");
    assert_eq!(skills[0].description, "Dancing");
    assert_eq!(skills[1].id, "1");
    assert_eq!(skills[1].description, "Singing");
}

#[test]
fn employees_preserve_insertion_order() {
    let ctx = Context::new(
        vec![],
        vec![
            InternalEmployee {
                first_name: None,
                last_name: "First".to_owned(),
                skills: vec![],
            },
            InternalEmployee {
                first_name: None,
                last_name: "Second".to_owned(),
                skills: vec![],
            },
            InternalEmployee {
                first_name: None,
                last_name: "Third".to_owned(),
                skills: vec![],
            },
        ],
        vec![],
    )
    .expect("store is well formed");
    let employees = Queries::employees(&ctx);
    let names: Vec<&str> = employees.iter().map(|e| e.last_name.as_str()).collect();
    assert_eq!(names, vec!["First", "Second", "Third"]);
    let ids: Vec<&str> = employees.iter().map(|e| e.id.as_str()).collect();
    assert_eq!(ids, vec!["0", "1", "2"]);
}

#[test]
fn root_entry_points_are_idempotent() {
    let ctx = scenario_store();
    assert_eq!(Queries::skills(&ctx), Queries::skills(&ctx));
    assert_eq!(Queries::employees(&ctx), Queries::employees(&ctx));
    assert_eq!(Queries::projects(&ctx), Queries::projects(&ctx));
}
