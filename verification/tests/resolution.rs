use skill_graph::digits::position_id;
use skill_graph::store::{Context, InternalEmployee, InternalProject, State};

fn store() -> Context {
    Context::new(
        vec!["Dancing".to_owned(), "Singing".to_owned(), "Acting".to_owned()],
        vec![
            InternalEmployee {
                first_name: Some("Michael".to_owned()),
                last_name: "Jackson".to_owned(),
                skills: vec![0, 1],
            },
            InternalEmployee {
                first_name: None,
                last_name: "Presley".to_owned(),
                skills: vec![2, 0],
            },
        ],
        vec![InternalProject {
            short: "Thriller".to_owned(),
            description: Some("An album".to_owned()),
            state: State::Ongoing,
            skills_required: vec![1, 2],
            responsible: 1,
            assigned: vec![0, 1],
        }],
    )
    .expect("store is well formed")
}

#[test]
fn position_id_renders_decimal() {
    assert_eq!(position_id(0), "0");
    assert_eq!(position_id(7), "7");
    assert_eq!(position_id(10), "10");
    assert_eq!(position_id(123), "123");
    assert_eq!(position_id(90210), "90210");
    assert_eq!(position_id(1000), "1000");
}

#[test]
fn resolve_skill_copies_description_and_stringifies_position() {
    let ctx = store();
    let s = ctx.resolve_skill(2).expect("position 2 is stored");
    assert_eq!(s.id, "2");
    assert_eq!(s.description, "Acting");
}

#[test]
fn resolve_skill_out_of_range_is_none() {
    let ctx = store();
    assert!(ctx.resolve_skill(3).is_none());
}

#[test]
fn resolve_employee_embeds_skills_in_stored_order() {
    let ctx = store();
    let e = ctx.resolve_employee(1).expect("position 1 is stored");
    assert_eq!(e.id, "1");
    assert_eq!(e.first_name, None);
    assert_eq!(e.last_name, "Presley");
    assert_eq!(e.skills.len(), 2);
    assert_eq!(e.skills[0].id, "2");
    assert_eq!(e.skills[0].description, "Acting");
    assert_eq!(e.skills[1].id, "0");
    assert_eq!(e.skills[1].description, "Dancing");
}

#[test]
fn resolve_employee_out_of_range_is_none() {
    let ctx = store();
    assert!(ctx.resolve_employee(2).is_none());
}

#[test]
fn resolve_project_embeds_everything_in_stored_order() {
    let ctx = store();
    let p = ctx.resolve_project(0).expect("position 0 is stored");
    assert_eq!(p.id, "0");
    assert_eq!(p.short, "Thriller");
    assert_eq!(p.description, Some("An album".to_owned()));
    assert_eq!(p.state, State::Ongoing);
    assert_eq!(p.skills_required.len(), 2);
    assert_eq!(p.skills_required[0].id, "1");
    assert_eq!(p.skills_required[0].description, "Singing");
    assert_eq!(p.skills_required[1].id, "2");
    assert_eq!(p.skills_required[1].description, "Acting");
    assert_eq!(p.responsible.id, "1");
    assert_eq!(p.responsible.last_name, "Presley");
    assert_eq!(p.assigned.len(), 2);
    assert_eq!(p.assigned[0].last_name, "Jackson");
    assert_eq!(p.assigned[1].last_name, "Presley");
}

#[test]
fn resolve_project_out_of_range_is_none() {
    let ctx = store();
    assert!(ctx.resolve_project(1).is_none());
}

#[test]
fn embedded_responsible_matches_direct_resolution() {
    let ctx = store();
    let p = ctx.resolve_project(0).expect("position 0 is stored");
    let direct = ctx.resolve_employee(1).expect("position 1 is stored");
    assert_eq!(p.responsible, direct);
    assert_eq!(p.responsible.skills, direct.skills);
}

#[test]
fn embedded_assigned_match_direct_resolution() {
    let ctx = store();
    let p = ctx.resolve_project(0).expect("position 0 is stored");
    for (j, eid) in [0usize, 1usize].iter().enumerate() {
        let direct = ctx.resolve_employee(*eid).expect("assigned position is stored");
        assert_eq!(p.assigned[j], direct);
    }
}
