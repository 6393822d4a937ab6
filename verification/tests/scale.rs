use sleep_log::scale::Exertion;
use sleep_log::scale::Quality;

#[test]
fn quality_codes_are_fixed() {
    assert_eq!(Quality::Devastation.db_value(), -2);
    assert_eq!(Quality::Terrible.db_value(), -1);
    assert_eq!(Quality::Blah.db_value(), 0);
    assert_eq!(Quality::Okay.db_value(), 1);
    assert_eq!(Quality::Perfection.db_value(), 2);
}

#[test]
fn exertion_codes_are_fixed() {
    assert_eq!(Exertion::Lazy.db_value(), -1);
    assert_eq!(Exertion::Normal.db_value(), 0);
    assert_eq!(Exertion::Exhausted.db_value(), 1);
}

#[test]
fn quality_scale_runs_from_worst_to_best() {
    let all = Quality::all();
    assert_eq!(
        all,
        vec![
            Quality::Devastation,
            Quality::Terrible,
            Quality::Blah,
            Quality::Okay,
            Quality::Perfection,
        ]
    );
    let codes: Vec<i8> = all.iter().map(|q| q.db_value()).collect();
    assert_eq!(codes, vec![-2, -1, 0, 1, 2]);
}

#[test]
fn exertion_scale_runs_from_least_to_most() {
    let all = Exertion::all();
    assert_eq!(all, vec![Exertion::Lazy, Exertion::Normal, Exertion::Exhausted]);
    let codes: Vec<i8> = all.iter().map(|e| e.db_value()).collect();
    assert_eq!(codes, vec![-1, 0, 1]);
}

#[test]
fn labels_are_the_variant_names() {
    let qualities: Vec<String> = Quality::all().iter().map(|q| q.label()).collect();
    assert_eq!(qualities, vec!["Devastation", "Terrible", "Blah", "Okay", "Perfection"]);
    let exertions: Vec<String> = Exertion::all().iter().map(|e| e.label()).collect();
    assert_eq!(exertions, vec!["Lazy", "Normal", "Exhausted"]);
}

#[test]
fn prompts_start_on_okay_and_normal() {
    assert_eq!(Quality::preselected(), Quality::Okay);
    assert_eq!(Exertion::preselected(), Exertion::Normal);
    assert_eq!(Quality::all()[3], Quality::preselected());
    assert_eq!(Exertion::all()[1], Exertion::preselected());
}
