//! Dialog trees and menu navigation.
//!
//! A dialog tree is a list of nodes; the current node either offers
//! buttons, jumps to another node on confirm, or ends the dialog.  Menu
//! navigation intents arrive as one-shot flags on a `UiNavigator` and are
//! a command queue, not a persistent flag bag: `navigate` consumes them
//! and clears every flag, so no intent ever leaks into the next frame.
//! Button selection wraps around at both ends and always stays in
//! bounds.

use vstd::prelude::*;

verus! {

/// One-shot navigation intents, raised by the input collaborator and
/// drained once per tick.
#[derive(Clone, Copy, PartialEq, Eq, Structural, Debug)]
pub struct UiNavigator {
    pub confirm: bool,
    pub back: bool,
    pub ui_up: bool,
    pub ui_down: bool,
    pub ui_left: bool,
    pub ui_right: bool,
}

impl Default for UiNavigator {
    fn default() -> (n: UiNavigator)
        ensures
            n == (UiNavigator {
                confirm: false,
                back: false,
                ui_up: false,
                ui_down: false,
                ui_left: false,
                ui_right: false,
            }),
    {
        UiNavigator {
            confirm: false,
            back: false,
            ui_up: false,
            ui_down: false,
            ui_left: false,
            ui_right: false,
        }
    }
}

impl UiNavigator {
    pub fn confirm(&mut self)
        ensures
            *final(self) == (UiNavigator { confirm: true, ..*old(self) }),
    {
        self.confirm = true;
    }

    pub fn back(&mut self)
        ensures
            *final(self) == (UiNavigator { back: true, ..*old(self) }),
    {
        self.back = true;
    }

    pub fn ui_up(&mut self)
        ensures
            *final(self) == (UiNavigator { ui_up: true, ..*old(self) }),
    {
        self.ui_up = true;
    }

    pub fn ui_down(&mut self)
        ensures
            *final(self) == (UiNavigator { ui_down: true, ..*old(self) }),
    {
        self.ui_down = true;
    }

    pub fn ui_left(&mut self)
        ensures
            *final(self) == (UiNavigator { ui_left: true, ..*old(self) }),
    {
        self.ui_left = true;
    }

    pub fn ui_right(&mut self)
        ensures
            *final(self) == (UiNavigator { ui_right: true, ..*old(self) }),
    {
        self.ui_right = true;
    }
}

/// Raised toward the entity owning the dialog when its current node is
/// confirmed or the dialog is closed.
#[derive(Clone, Copy, PartialEq, Eq, Structural, Debug)]
pub enum DialogActionEvent {
    Confirm,
    Close,
}

pub struct DialogButton {
    pub text: String,
    /// The render-side widget showing this button; owned by the UI
    /// collaborator.
    pub entity: u64,
}

impl DialogButton {
    pub fn new(text: &str) -> (b: DialogButton)
        ensures
            b.text@ == text@,
            b.entity == 0,
    {
        DialogButton { text: text.to_owned(), entity: 0 }
    }
}

pub struct DialogButtons {
    pub selected_button: usize,
    pub buttons: Vec<DialogButton>,
}

pub enum DialogAction {
    Buttons(DialogButtons),
    NextNode(usize),
    End,
}

pub struct DialogNode {
    pub text: String,
    pub action: DialogAction,
}

/// What a confirmed button asks of the dialog's owner.
pub enum ButtonAction {
    NextNode(usize),
}

pub struct DialogTree {
    pub nodes: Vec<DialogNode>,
    pub current_node: usize,
}

pub open spec fn node_wf(n: DialogNode, len: int) -> bool {
    match n.action {
        DialogAction::Buttons(b) => b.buttons@.len() > 0 && b.selected_button < b.buttons@.len(),
        DialogAction::NextNode(ix) => ix < len,
        DialogAction::End => true,
    }
}

/// The selected button after one up intent: one step back, wrapping.
pub open spec fn sel_after_up(sel: int, len: int, up: bool) -> int {
    if !up {
        sel
    } else if sel == 0 {
        len - 1
    } else {
        sel - 1
    }
}

/// The selected button after one down intent: one step forward, wrapping.
pub open spec fn sel_after_down(sel: int, len: int, down: bool) -> int {
    if !down {
        sel
    } else if sel + 1 == len {
        0
    } else {
        sel + 1
    }
}

impl DialogTree {
    pub open spec fn wf(self) -> bool {
        &&& self.current_node < self.nodes@.len()
        &&& forall|i: int|
            0 <= i < self.nodes@.len() ==> node_wf(
                #[trigger] self.nodes@[i],
                self.nodes@.len() as int,
            )
    }

    pub fn new(first_node: DialogNode) -> (t: DialogTree)
        requires
            node_wf(first_node, 1),
        ensures
            t.wf(),
            t.nodes@.len() == 1,
            t.nodes@[0] == first_node,
            t.current_node == 0,
    {
        let mut nodes: Vec<DialogNode> = Vec::new();
        nodes.push(first_node);
        DialogTree { nodes, current_node: 0 }
    }

    /// Drain one tick's navigation intents against the current node: on a
    /// button node, up and down move the selection with wrap-around and
    /// confirm raises a `Confirm` event toward the owner; on a jump node,
    /// confirm advances to the target node; an end node ignores
    /// everything.  The intents are one-shot: every flag is cleared here,
    /// whatever the node did with it.  The selection always stays in
    /// bounds.
    pub fn navigate(&mut self, nav: &mut UiNavigator) -> (ev: Option<DialogActionEvent>)
        requires
            old(self).wf(),
        ensures
            final(self).wf(),
            *final(nav) == (UiNavigator {
                confirm: false,
                back: false,
                ui_up: false,
                ui_down: false,
                ui_left: false,
                ui_right: false,
            }),
            final(self).nodes@.len() == old(self).nodes@.len(),
            match old(self).nodes@[old(self).current_node as int].action {
                DialogAction::Buttons(b) => {
                    &&& final(self).current_node == old(self).current_node
                    &&& ev == (if old(nav).confirm {
                        Some(DialogActionEvent::Confirm)
                    } else {
                        None::<DialogActionEvent>
                    })
                    &&& (forall|i: int|
                        0 <= i < old(self).nodes@.len() && i != old(self).current_node
                            ==> final(self).nodes@[i] == old(self).nodes@[i])
                    &&& ({
                        let n1 = final(self).nodes@[old(self).current_node as int];
                        &&& n1.text == old(self).nodes@[old(self).current_node as int].text
                        &&& (match n1.action {
                            DialogAction::Buttons(b1) => b1.buttons@ == b.buttons@
                                && b1.selected_button == sel_after_down(
                                sel_after_up(
                                    b.selected_button as int,
                                    b.buttons@.len() as int,
                                    old(nav).ui_up,
                                ),
                                b.buttons@.len() as int,
                                old(nav).ui_down,
                            ),
                            _ => false,
                        })
                    })
                },
                DialogAction::NextNode(ix) => {
                    &&& final(self).nodes@ == old(self).nodes@
                    &&& ev is None
                    &&& final(self).current_node == (if old(nav).confirm {
                        ix as int
                    } else {
                        old(self).current_node as int
                    })
                },
                DialogAction::End => {
                    &&& final(self).nodes@ == old(self).nodes@
                    &&& final(self).current_node == old(self).current_node
                    &&& ev is None
                },
            },
    {
        let intents = *nav;
        *nav = UiNavigator::default();
        let cur = self.current_node;
        let mut next: Option<usize> = None;
        let mut ev: Option<DialogActionEvent> = None;
        proof {
            assert(node_wf(self.nodes@[cur as int], self.nodes@.len() as int));
        }
        let node = &mut self.nodes[cur];
        match &mut node.action {
            DialogAction::Buttons(b) => {
                let len = b.buttons.len();
                if intents.ui_up {
                    if b.selected_button == 0 {
                        b.selected_button = len - 1;
                    } else {
                        b.selected_button = b.selected_button - 1;
                    }
                }
                if intents.ui_down {
                    b.selected_button = b.selected_button + 1;
                    if b.selected_button == len {
                        b.selected_button = 0;
                    }
                }
                if intents.confirm {
                    ev = Some(DialogActionEvent::Confirm);
                }
            },
            DialogAction::NextNode(ix) => {
                if intents.confirm {
                    next = Some(*ix);
                }
            },
            DialogAction::End => {},
        }
        match next {
            Some(ix) => {
                self.current_node = ix;
            },
            None => {},
        }
        ev
    }
}

} // verus!
