use claw10::json::JsonValue;
use claw10::skill::{Skill, SkillCostProfile, SkillError, SkillService, SkillState};

fn make_svc() -> SkillService {
    SkillService::new()
}

fn sample_skill(svc: &mut SkillService) -> Skill {
    svc.create_skill(
        "web-search".into(),
        "Search the web".into(),
        "1.0.0".into(),
        JsonValue::Object(vec![("query".to_string(), JsonValue::Str("string".to_string()))]),
        JsonValue::Object(vec![("results".to_string(), JsonValue::Str("array".to_string()))]),
        vec!["search".into()],
        vec!["http".into()],
        vec![],
        // 0.01 dollars, two seconds.
        SkillCostProfile { estimated_cost_usd: 10_000, average_duration_ms: 2_000 },
    )
    .ok()
    .unwrap()
}

fn ok(r: Result<Skill, SkillError>) -> Skill {
    match r {
        Ok(s) => s,
        Err(e) => panic!("{}", e.to_string()),
    }
}

#[test]
fn test_create_skill() {
    let mut svc = make_svc();
    let skill = sample_skill(&mut svc);
    assert_eq!(skill.name, "web-search");
    assert_eq!(skill.state, SkillState::Candidate);
}

#[test]
fn test_full_lifecycle() {
    let mut svc = make_svc();
    let skill = sample_skill(&mut svc);
    for st in [SkillState::Scanning, SkillState::Testing, SkillState::Review, SkillState::Approved, SkillState::Staged] {
        let s = ok(svc.transition_state(&skill.id, st));
        assert_eq!(s.state, st);
    }
    ok(svc.sign_skill(&skill.id, "sig-abc123".into()));
    let s = ok(svc.transition_state(&skill.id, SkillState::Active));
    assert_eq!(s.state, SkillState::Active);
    let s = ok(svc.transition_state(&skill.id, SkillState::Deprecated));
    assert_eq!(s.state, SkillState::Deprecated);
    let s = ok(svc.transition_state(&skill.id, SkillState::Retired));
    assert_eq!(s.state, SkillState::Retired);
}

#[test]
fn test_invalid_transition() {
    let mut svc = make_svc();
    let skill = sample_skill(&mut svc);
    let result = svc.transition_state(&skill.id, SkillState::Active);
    assert!(result.is_err());
}

#[test]
fn test_unsigned_cannot_activate() {
    let mut svc = make_svc();
    let skill = sample_skill(&mut svc);
    for st in [SkillState::Scanning, SkillState::Testing, SkillState::Review, SkillState::Approved, SkillState::Staged] {
        ok(svc.transition_state(&skill.id, st));
    }
    let result = svc.transition_state(&skill.id, SkillState::Active);
    assert!(result.is_err());
    assert!(matches!(result.err().unwrap(), SkillError::Unsigned));
}

#[test]
fn test_list_skills_with_filter() {
    let mut svc = make_svc();
    let s1 = sample_skill(&mut svc);
    let _s2 = sample_skill(&mut svc);
    ok(svc.transition_state(&s1.id, SkillState::Scanning));
    let candidates = svc.list_skills(Some(SkillState::Candidate)).ok().unwrap();
    assert_eq!(candidates.len(), 1);
    let all = svc.list_skills(None).ok().unwrap();
    assert_eq!(all.len(), 2);
}

#[test]
fn test_list_by_required_tool() {
    let mut svc = make_svc();
    let _ = sample_skill(&mut svc);
    let with_http = svc.list_by_required_tool("http").ok().unwrap();
    assert_eq!(with_http.len(), 1);
    let with_db = svc.list_by_required_tool("database").ok().unwrap();
    assert_eq!(with_db.len(), 0);
}

#[test]
fn test_count_by_state() {
    let mut svc = make_svc();
    let s1 = sample_skill(&mut svc);
    let _s2 = sample_skill(&mut svc);
    ok(svc.transition_state(&s1.id, SkillState::Scanning));
    let counts = svc.count_by_state().ok().unwrap();
    let get = |name: &str| counts.iter().find(|(k, _)| k == name).map(|(_, n)| *n).unwrap_or(0);
    assert_eq!(get("Candidate"), 1);
    assert_eq!(get("Scanning"), 1);
}

#[test]
fn test_create_version() {
    let mut svc = make_svc();
    let skill = sample_skill(&mut svc);
    let ver = svc.create_version(&skill.id, "1.0.0".into(), None, "initial release".into()).ok().unwrap();
    assert_eq!(ver.version, "1.0.0");
    assert!(ver.previous_version.is_none());
}

#[test]
fn create_version_of_unknown_skill_fails() {
    let mut svc = make_svc();
    let missing = claw10::domain::SkillId(42);
    match svc.create_version(&missing, "1.0.0".into(), None, "x".into()) {
        Err(SkillError::NotFound(id)) => assert_eq!(id, "00000000-0000-0000-0000-00000000002a"),
        _ => panic!("expected not found"),
    }
}

#[test]
fn test_sign_skill() {
    let mut svc = make_svc();
    let skill = sample_skill(&mut svc);
    let signed = ok(svc.sign_skill(&skill.id, "test-signature".into()));
    assert_eq!(signed.signature.as_deref(), Some("test-signature"));
}

#[test]
fn get_skill_finds_registered_skills_only() {
    let mut svc = make_svc();
    let skill = sample_skill(&mut svc);
    assert_eq!(svc.get_skill(&skill.id).ok().unwrap().unwrap().name, "web-search");
    assert!(svc.get_skill(&claw10::domain::SkillId(1)).ok().unwrap().is_none());
}

#[test]
fn skill_error_messages() {
    assert_eq!(SkillError::Unsigned.to_string(), "unsigned skills cannot be made active");
    assert_eq!(
        SkillError::InvalidTransition { from: SkillState::Candidate, to: SkillState::Active }.to_string(),
        "invalid state transition: Candidate -> Active"
    );
}
