use combat::head_quarter::{observe_dialog_action, HeadQuarter, HeadQuarterState, HqInteraction};
use combat::interaction::{try_interact, Interactable};
use combat::player::player_skill_tree;
use combat::skills::{Skill, SkillTree};
use combat::ui_dialog::{DialogAction, DialogActionEvent, UiNavigator};
use combat::xp::XpInventory;

#[test]
fn currency_spend_scenario() {
    // amount=1000, spend(1000) -> true and 0; spend(1) -> false and 0.
    let mut xp = XpInventory::new();
    xp.collect_xp(1000);
    assert_eq!(xp.amount(), 1000);
    assert!(xp.spend(1000));
    assert_eq!(xp.amount(), 0);
    assert!(!xp.spend(1));
    assert_eq!(xp.amount(), 0);
}

#[test]
fn locked_skill_never_casts() {
    // Skill gating: unlocked == false => casting has no effect and the
    // reload timer is untouched.
    let mut tree = player_skill_tree();
    assert!(!tree.unlocked("Beam".to_string()));
    let before = tree.skill("Beam".to_string()).clone();
    assert!(!tree.try_cast("Beam".to_string()));
    let after = tree.skill("Beam".to_string());
    assert_eq!(before, *after);
}

#[test]
fn unlocked_skill_waits_for_reload() {
    // unlocked == true with reload_timer not finished => same refusal.
    let mut tree = player_skill_tree();
    assert!(tree.unlocked("Slash".to_string()));
    assert!(!tree.try_cast("Slash".to_string()), "reload timer starts cold");
    assert_eq!(tree.skill("Slash".to_string()).reload_elapsed_ms, 0);
    tree.tick(200);
    assert!(tree.try_cast("Slash".to_string()));
    assert_eq!(tree.skill("Slash".to_string()).reload_elapsed_ms, 0, "cast restarts the reload");
    assert!(!tree.try_cast("Slash".to_string()), "reload must run again before re-cast");
}

#[test]
fn unlock_skill_flips_only_the_named_skill() {
    let mut tree = player_skill_tree();
    tree.unlock_skill("Bullets".to_string());
    assert!(tree.unlocked("Bullets".to_string()));
    assert!(!tree.unlocked("Fire ball".to_string()));
    assert!(!tree.unlocked("Beam".to_string()));
    assert!(!tree.unlocked("No such".to_string()));
}

#[test]
fn add_skill_replaces_by_name() {
    let mut tree = SkillTree::new();
    tree.add_skill(Skill {
        name: "Slash".to_string(),
        mana_cost: 1,
        reload_elapsed_ms: 0,
        reload_duration_ms: 100,
        unlocked: false,
    });
    tree.add_skill(Skill {
        name: "Slash".to_string(),
        mana_cost: 9,
        reload_elapsed_ms: 0,
        reload_duration_ms: 300,
        unlocked: true,
    });
    assert_eq!(tree.skill("Slash".to_string()).mana_cost, 9);
    assert!(tree.unlocked("Slash".to_string()));
}

#[test]
fn interaction_resolves_against_exactly_one() {
    // Two interactables A and B both overlapping X, B registered after A:
    // exactly one resolves, by registration order; never both, never zero.
    let x = 77;
    let mut a = Interactable::new();
    let mut b = Interactable::new();
    a.on_collision_start(x, true);
    b.on_collision_start(x, true);
    let registry = vec![(1u64, a), (2u64, b)];
    let hit = try_interact(&registry, x);
    let (target, ev) = hit.expect("never zero when one overlaps");
    assert_eq!(target, 1, "first registered interactable wins");
    assert_eq!(ev.interactor, x);
}

#[test]
fn interaction_falls_through_to_the_next() {
    let x = 77;
    let a = Interactable::new();
    let mut b = Interactable::new();
    b.on_collision_start(x, true);
    let registry = vec![(1u64, a), (2u64, b)];
    let (target, _) = try_interact(&registry, x).unwrap();
    assert_eq!(target, 2);
    assert!(try_interact(&registry, 99).is_none(), "no overlap, no interaction");
}

#[test]
fn collision_end_removes_one_entry() {
    // Repeated begins keep duplicate entries; each end removes one.
    let mut a = Interactable::new();
    a.on_collision_start(5, true);
    a.on_collision_start(5, true);
    a.on_collision_start(6, false);
    assert_eq!(a.interactors(), vec![5, 5]);
    a.on_collision_end(5, true);
    assert_eq!(a.interactors(), vec![5]);
    a.on_collision_end(5, true);
    assert!(a.interactors().is_empty());
}

#[test]
fn navigator_wraps_selection_both_ways() {
    let mut nav = UiNavigator::default();
    nav.ui_up();
    let mut hq = HeadQuarter { state: HeadQuarterState::Tent };
    let mut xp = XpInventory::new();
    let tree = player_skill_tree();
    let mut dialog = match hq.observe_player_interaction(&mut xp, &tree) {
        HqInteraction::MenuOpened(d) => d,
        _ => panic!("tent must open its menu"),
    };
    // menu: Bullets, Fire ball, Beam, Cancel
    let ev = dialog.navigate(&mut nav);
    assert!(ev.is_none());
    assert_eq!(nav, UiNavigator::default(), "intents are one-shot and drained");
    match &dialog.nodes[0].action {
        DialogAction::Buttons(b) => assert_eq!(b.selected_button, 3, "up from 0 wraps to last"),
        _ => panic!("expected buttons"),
    }
    let mut nav = UiNavigator::default();
    nav.ui_down();
    dialog.navigate(&mut nav);
    match &dialog.nodes[0].action {
        DialogAction::Buttons(b) => assert_eq!(b.selected_button, 0, "down from last wraps to 0"),
        _ => panic!("expected buttons"),
    }
    let mut nav = UiNavigator::default();
    nav.confirm();
    let ev = dialog.navigate(&mut nav);
    assert_eq!(nav, UiNavigator::default(), "confirm is consumed with the rest");
    assert_eq!(ev, Some(DialogActionEvent::Confirm));
}

#[test]
fn head_quarter_build_then_shop() {
    let mut hq = HeadQuarter::new();
    let mut xp = XpInventory::new();
    xp.collect_xp(2500);
    let mut tree = player_skill_tree();

    // refused while the purse is too small
    let mut poor = XpInventory::new();
    poor.collect_xp(999);
    match hq.observe_player_interaction(&mut poor, &tree) {
        HqInteraction::Refused => {}
        _ => panic!("999 xp cannot build the tent"),
    }
    assert_eq!(poor.amount(), 999);
    assert_eq!(hq.state, HeadQuarterState::TentSpot);

    // build
    match hq.observe_player_interaction(&mut xp, &tree) {
        HqInteraction::Built => {}
        _ => panic!("2500 xp builds the tent"),
    }
    assert_eq!(xp.amount(), 1500);
    assert_eq!(hq.state, HeadQuarterState::Tent);

    // shop: three locked skills plus cancel
    let dialog = match hq.observe_player_interaction(&mut xp, &tree) {
        HqInteraction::MenuOpened(d) => d,
        _ => panic!("tent must open its menu"),
    };
    match &dialog.nodes[0].action {
        DialogAction::Buttons(b) => {
            let texts: Vec<&str> = b.buttons.iter().map(|bb| bb.text.as_str()).collect();
            assert_eq!(
                texts,
                vec!["Bullets (1000Xp)", "Fire ball (1000Xp)", "Beam (1000Xp)", "Cancel"]
            );
        }
        _ => panic!("expected buttons"),
    }

    // buy the first entry
    let close = observe_dialog_action(&dialog, DialogActionEvent::Confirm, &mut xp, &mut tree);
    assert!(!close);
    assert_eq!(xp.amount(), 500);
    assert!(tree.unlocked("Bullets".to_string()));

    // a second buy is refused for lack of funds and unlocks nothing
    let close = observe_dialog_action(&dialog, DialogActionEvent::Confirm, &mut xp, &mut tree);
    assert!(!close);
    assert_eq!(xp.amount(), 500);
}

#[test]
fn prompt_shows_only_on_overlapped_spot() {
    let hq = HeadQuarter::new();
    assert!(!hq.prompt_visible(&vec![]));
    assert!(hq.prompt_visible(&vec![4]));
    let tent = HeadQuarter { state: HeadQuarterState::Tent };
    assert!(!tent.prompt_visible(&vec![4]));
}
