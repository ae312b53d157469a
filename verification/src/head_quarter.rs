//! The head quarter: a tent spot upgraded by spending experience, then a
//! skill-learning shop.
//!
//! Interacting with the bare spot builds the tent when the purse covers
//! the cost, and is otherwise refused silently.  Interacting with the
//! built tent opens a dialog offering each still-locked spell skill for
//! its price, plus a cancel button; confirming a skill button spends the
//! price and unlocks the skill, and never unlocks on an uncovered purse.

use vstd::prelude::*;

verus! {

use crate::skills::Skill;
use crate::skills::SkillTree;
use crate::skills::skill_unlocked;
use crate::ui_dialog::DialogAction;
use crate::ui_dialog::DialogActionEvent;
use crate::ui_dialog::DialogButton;
use crate::ui_dialog::DialogButtons;
use crate::ui_dialog::DialogNode;
use crate::ui_dialog::DialogTree;
use crate::xp::XpInventory;

/// Cost of building the tent and of each skill, in experience points.
pub const HQ_COST: i32 = 1000;

#[derive(Clone, Copy, PartialEq, Eq, Structural, Debug)]
pub enum HeadQuarterState {
    TentSpot,
    Tent,
}

pub struct HeadQuarter {
    pub state: HeadQuarterState,
}

/// What one interaction with the head quarter did.
pub enum HqInteraction {
    /// The tent was built; its cost has been spent.
    Built,
    /// The purse did not cover the cost; nothing changed.
    Refused,
    /// The tent offers its skill menu.
    MenuOpened(DialogTree),
}

/// The button labels the tent's menu offers, given which skills are
/// already unlocked: one buy button per still-locked skill, then cancel.
pub open spec fn hq_menu_texts(bullets: bool, fire_ball: bool, beam: bool) -> Seq<Seq<char>> {
    (if !bullets {
        seq!["Bullets (1000Xp)"@]
    } else {
        Seq::<Seq<char>>::empty()
    }) + (if !fire_ball {
        seq!["Fire ball (1000Xp)"@]
    } else {
        Seq::<Seq<char>>::empty()
    }) + (if !beam {
        seq!["Beam (1000Xp)"@]
    } else {
        Seq::<Seq<char>>::empty()
    }) + seq!["Cancel"@]
}

impl HeadQuarter {
    pub fn new() -> (hq: HeadQuarter)
        ensures
            hq.state == HeadQuarterState::TentSpot,
    {
        HeadQuarter { state: HeadQuarterState::TentSpot }
    }

    /// Whether the build prompt should show: only while the spot is bare
    /// and some interactor overlaps it.
    pub fn prompt_visible(&self, interactors: &Vec<u64>) -> (v: bool)
        ensures
            v == (self.state == HeadQuarterState::TentSpot && interactors@.len() > 0),
    {
        match self.state {
            HeadQuarterState::Tent => false,
            HeadQuarterState::TentSpot => interactors.len() > 0,
        }
    }

    /// Resolve one targeted interaction: on the bare spot, build the tent
    /// exactly when the purse covers the cost; on the built tent, open
    /// the skill menu listing each still-locked skill and a cancel
    /// button.
    pub fn observe_player_interaction(&mut self, xp: &mut XpInventory, skills: &SkillTree) -> (r:
        HqInteraction)
        requires
            skills.wf(),
            old(xp).spec_amount() - HQ_COST <= i32::MAX,
        ensures
            old(self).state == HeadQuarterState::TentSpot && old(xp).spec_amount() >= HQ_COST
                ==> (r is Built && final(self).state == HeadQuarterState::Tent && final(xp).spec_amount() == old(xp).spec_amount() - HQ_COST),
            old(self).state == HeadQuarterState::TentSpot && old(xp).spec_amount() < HQ_COST
                ==> (r is Refused && *final(self) == *old(self) && final(xp).spec_amount()
                == old(xp).spec_amount()),
            old(self).state == HeadQuarterState::Tent ==> (*final(self) == *old(self) && final(xp).spec_amount() == old(xp).spec_amount() && (match r {
                HqInteraction::MenuOpened(tree) => {
                    &&& tree.wf()
                    &&& tree.nodes@.len() == 1
                    &&& tree.current_node == 0
                    &&& tree.nodes@[0].text@ == "Learn skills"@
                    &&& (match tree.nodes@[0].action {
                        DialogAction::Buttons(b) => b.selected_button == 0
                            && b.buttons@.map_values(|bb: DialogButton| bb.text@)
                            == hq_menu_texts(
                            skills.spec_unlocked("Bullets"@),
                            skills.spec_unlocked("Fire ball"@),
                            skills.spec_unlocked("Beam"@),
                        ),
                        _ => false,
                    })
                },
                _ => false,
            })),
    {
        match self.state {
            HeadQuarterState::TentSpot => {
                if xp.spend(HQ_COST) {
                    self.state = HeadQuarterState::Tent;
                    HqInteraction::Built
                } else {
                    HqInteraction::Refused
                }
            },
            HeadQuarterState::Tent => {
                let mut buttons: Vec<DialogButton> = Vec::new();
                if !skills.unlocked("Bullets".to_owned()) {
                    buttons.push(DialogButton::new("Bullets (1000Xp)"));
                }
                if !skills.unlocked("Fire ball".to_owned()) {
                    buttons.push(DialogButton::new("Fire ball (1000Xp)"));
                }
                if !skills.unlocked("Beam".to_owned()) {
                    buttons.push(DialogButton::new("Beam (1000Xp)"));
                }
                buttons.push(DialogButton::new("Cancel"));
                proof {
                    assert(buttons@.map_values(|bb: DialogButton| bb.text@) =~= hq_menu_texts(
                        skills.spec_unlocked("Bullets"@),
                        skills.spec_unlocked("Fire ball"@),
                        skills.spec_unlocked("Beam"@),
                    ));
                }
                let node = DialogNode {
                    text: "Learn skills".to_owned(),
                    action: DialogAction::Buttons(
                        DialogButtons { selected_button: 0, buttons },
                    ),
                };
                HqInteraction::MenuOpened(DialogTree::new(node))
            },
        }
    }
}

/// Resolve a confirmed menu action against the dialog's current button:
/// a buy button spends the cost and unlocks its skill exactly when the
/// purse covers it, the cancel button closes the menu, and anything else
/// — a close event included — changes nothing.  Returns whether the menu
/// closes.
pub fn observe_dialog_action(
    tree: &DialogTree,
    ev: DialogActionEvent,
    xp: &mut XpInventory,
    skills: &mut SkillTree,
) -> (close: bool)
    requires
        tree.wf(),
        old(skills).wf(),
        old(xp).spec_amount() - HQ_COST <= i32::MAX,
    ensures
        final(skills).wf(),
        ({
            let node = tree.nodes@[tree.current_node as int];
            match node.action {
                DialogAction::Buttons(b) => {
                    let t = b.buttons@[b.selected_button as int].text@;
                    if ev == DialogActionEvent::Confirm {
                        if t == "Cancel"@ {
                            &&& close
                            &&& final(xp).spec_amount() == old(xp).spec_amount()
                            &&& final(skills)@ == old(skills)@
                        } else if (t == "Bullets (1000Xp)"@ || t == "Fire ball (1000Xp)"@ || t
                            == "Beam (1000Xp)"@) && old(xp).spec_amount() >= HQ_COST {
                            &&& !close
                            &&& final(xp).spec_amount() == old(xp).spec_amount() - HQ_COST
                            &&& ({
                                let name = if t == "Bullets (1000Xp)"@ {
                                    "Bullets"@
                                } else if t == "Fire ball (1000Xp)"@ {
                                    "Fire ball"@
                                } else {
                                    "Beam"@
                                };
                                &&& final(skills)@.len() == old(skills)@.len()
                                &&& (forall|i: int|
                                    0 <= i < old(skills)@.len() ==> final(skills)@[i] == (
                                    if old(skills)@[i].name@ == name {
                                        skill_unlocked(old(skills)@[i])
                                    } else {
                                        old(skills)@[i]
                                    }))
                            })
                        } else {
                            &&& !close
                            &&& final(xp).spec_amount() == old(xp).spec_amount()
                            &&& final(skills)@ == old(skills)@
                        }
                    } else {
                        &&& !close
                        &&& final(xp).spec_amount() == old(xp).spec_amount()
                        &&& final(skills)@ == old(skills)@
                    }
                },
                _ => {
                    &&& !close
                    &&& final(xp).spec_amount() == old(xp).spec_amount()
                    &&& final(skills)@ == old(skills)@
                },
            }
        }),
{
    proof {
        assert(crate::ui_dialog::node_wf(
            tree.nodes@[tree.current_node as int],
            tree.nodes@.len() as int,
        ));
        reveal_strlit("Cancel");
        reveal_strlit("Bullets (1000Xp)");
        reveal_strlit("Fire ball (1000Xp)");
        reveal_strlit("Beam (1000Xp)");
        assert("Cancel"@.len() == 6);
        assert("Bullets (1000Xp)"@.len() == 16);
        assert("Fire ball (1000Xp)"@.len() == 18);
        assert("Beam (1000Xp)"@.len() == 13);
    }
    let node = &tree.nodes[tree.current_node];
    match &node.action {
        DialogAction::Buttons(b) => {
            let button = &b.buttons[b.selected_button];
            match ev {
                DialogActionEvent::Confirm => {
                    if button.text == "Bullets (1000Xp)".to_owned() {
                        if xp.spend(HQ_COST) {
                            skills.unlock_skill("Bullets".to_owned());
                        }
                        false
                    } else if button.text == "Fire ball (1000Xp)".to_owned() {
                        if xp.spend(HQ_COST) {
                            skills.unlock_skill("Fire ball".to_owned());
                        }
                        false
                    } else if button.text == "Beam (1000Xp)".to_owned() {
                        if xp.spend(HQ_COST) {
                            skills.unlock_skill("Beam".to_owned());
                        }
                        false
                    } else if button.text == "Cancel".to_owned() {
                        true
                    } else {
                        false
                    }
                },
                DialogActionEvent::Close => false,
            }
        },
        _ => false,
    }
}

} // verus!
