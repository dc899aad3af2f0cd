//! The notice that closing the window hides it to the notification area.
//!
//! Closing leaves the program running, which without a word looks like quitting. So the notice is
//! shown before the window hides, every time until the user asks not to see it again.
use vstd::prelude::*;

verus! {

/// The notice's state.
#[derive(Clone, Copy, Debug, PartialEq, Eq, Structural)]
pub struct TrayNoticeState {
    pub visible: bool,
    /// The checkbox: the notice is not to be shown again.
    pub dont_show_again: bool,
    /// The switch: closing the window quits instead of hiding it.
    pub close_quits: bool,
}

/// What the notice concluded in one frame.
#[derive(Clone, Copy, Debug, PartialEq, Eq, Structural)]
pub enum Action {
    Nothing,
    /// The notice was dismissed with these choices. The window was already closed by the user,
    /// so the second one is acted on at once.
    Closed { remember: bool, close_quits: bool },
}

impl Default for TrayNoticeState {
    fn default() -> (r: TrayNoticeState)
        ensures
            r == (TrayNoticeState { visible: false, dont_show_again: false, close_quits: false }),
    {
        TrayNoticeState { visible: false, dont_show_again: false, close_quits: false }
    }
}

/// What the user did to the notice in one frame.
#[derive(Clone, Copy, Debug, PartialEq, Eq, Structural)]
pub struct NoticeFrame {
    /// The switch was clicked.
    pub switched: bool,
    /// The checkbox was clicked.
    pub ticked: bool,
    /// The button was clicked, or the notice was dismissed without it.
    pub dismissed: bool,
}

impl TrayNoticeState {
    /// The choices after one frame of an open notice. Switching to quitting withdraws the
    /// request not to show the notice again, and a closing that quits leaves nothing to tick.
    pub open spec fn chosen(self, f: NoticeFrame) -> TrayNoticeState {
        let close_quits = self.close_quits != f.switched;
        TrayNoticeState {
            visible: !f.dismissed,
            close_quits,
            dont_show_again: if close_quits {
                self.dont_show_again && !f.switched
            } else {
                self.dont_show_again != f.ticked
            },
        }
    }

    /// Opens the notice, unless the user has asked not to see it again. The switch shows the
    /// setting as it is now.
    pub fn open(&mut self, close_quits: bool)
        ensures
            *final(self) == old(self).shown(close_quits),
            *final(self) == (TrayNoticeState {
                visible: old(self).visible || !old(self).dont_show_again,
                close_quits,
                ..*old(self)
            }),
    {
        self.close_quits = close_quits;
        self.visible = self.visible || !self.dont_show_again;
    }

    /// What a frame of the notice concludes.
    pub open spec fn concluded(self, f: NoticeFrame) -> Action {
        if self.visible && f.dismissed {
            Action::Closed {
                remember: self.chosen(f).dont_show_again,
                close_quits: self.chosen(f).close_quits,
            }
        } else {
            Action::Nothing
        }
    }

    /// The notice once it is to be shown.
    pub open spec fn shown(self, close_quits: bool) -> TrayNoticeState {
        TrayNoticeState { visible: self.visible || !self.dont_show_again, close_quits, ..self }
    }

    /// One frame of the notice.
    pub fn frame(&mut self, f: NoticeFrame) -> (r: Action)
        ensures
            r == old(self).concluded(f),
            *final(self) == (if old(self).visible {
                old(self).chosen(f)
            } else {
                *old(self)
            }),
            r == (if old(self).visible && f.dismissed {
                Action::Closed {
                    remember: final(self).dont_show_again,
                    close_quits: final(self).close_quits,
                }
            } else {
                Action::Nothing
            }),
    {
        if !self.visible {
            return Action::Nothing;
        }
        if f.switched {
            self.close_quits = !self.close_quits;
            if self.close_quits {
                self.dont_show_again = false;
            }
        }
        if f.ticked && !self.close_quits {
            self.dont_show_again = !self.dont_show_again;
        }
        if f.dismissed {
            self.visible = false;
            return Action::Closed { remember: self.dont_show_again, close_quits: self.close_quits };
        }
        Action::Nothing
    }

    /// The button's label: it says so where the button ends the program.
    pub fn button_label(&self) -> (r: &'static str)
        ensures
            r@ == (if self.close_quits {
                "Quit SimpleTally"@
            } else {
                "Got it"@
            }),
    {
        if self.close_quits {
            "Quit SimpleTally"
        } else {
            "Got it"
        }
    }

    /// The two lines beside the switch, which describe what closing does now.
    pub fn switch_lines(&self) -> (r: (&'static str, &'static str))
        ensures
            self.close_quits ==> r.0@ == "Close button exits the app"@ && r.1@
                == "Ctrl+Shift+T quick add stops working while it is closed"@,
            !self.close_quits ==> r.0@ == "Close button minimises to tray"@ && r.1@
                == "Keeps running so Ctrl+Shift+T quick add still works"@,
    {
        if self.close_quits {
            (
                "Close button exits the app",
                "Ctrl+Shift+T quick add stops working while it is closed",
            )
        } else {
            (
                "Close button minimises to tray",
                "Keeps running so Ctrl+Shift+T quick add still works",
            )
        }
    }
}

/// Two clicks on the switch leave what closing does as it was. The wish not to see the notice
/// again does not survive switching to quitting.
pub proof fn law_switching_twice(s: TrayNoticeState, f: NoticeFrame)
    requires
        f == (NoticeFrame { switched: true, ticked: false, dismissed: false }),
    ensures
        s.chosen(f).chosen(f).close_quits == s.close_quits,
        !s.close_quits ==> !s.chosen(f).chosen(f).dont_show_again,
{
}

/// A click on the switch flips what closing does, and one on the checkbox the wish not to see the
/// notice again, which cannot be made where closing quits and does not survive switching to it.
/// The notice stays until it is dismissed.
pub proof fn law_clicks_are_taken(s: TrayNoticeState, f: NoticeFrame)
    ensures
        s.chosen(f).visible <==> !f.dismissed,
        f.switched ==> s.chosen(f).close_quits == !s.close_quits,
        !f.switched ==> s.chosen(f).close_quits == s.close_quits,
        !f.switched && !s.close_quits && f.ticked ==> s.chosen(f).dont_show_again
            == !s.dont_show_again,
        !f.switched && !s.close_quits && !f.ticked ==> s.chosen(f).dont_show_again
            == s.dont_show_again,
        !f.switched && s.close_quits ==> s.chosen(f).dont_show_again == s.dont_show_again,
        f.switched && !s.close_quits ==> !s.chosen(f).dont_show_again,
        f.switched && s.close_quits && f.ticked ==> s.chosen(f).dont_show_again
            == !s.dont_show_again,
        f.switched && s.close_quits && !f.ticked ==> s.chosen(f).dont_show_again
            == s.dont_show_again,
{
}

/// A notice that is dismissed hands on both choices as they stand after the frame; one that stays
/// open, or was not open, concludes nothing.
pub proof fn law_dismissal_hands_the_choices_on(s: TrayNoticeState, f: NoticeFrame)
    ensures
        s.visible && f.dismissed ==> (s.concluded(f) matches Action::Closed {
            remember,
            close_quits,
        } && remember == s.chosen(f).dont_show_again && close_quits == s.chosen(f).close_quits),
        !s.visible || !f.dismissed ==> s.concluded(f) == Action::Nothing,
{
}

/// The notice comes up unless the user has asked not to see it again; the switch shows what
/// closing does now, and the checkbox stays as it is.
pub proof fn law_notice_comes_up_unless_unwanted(s: TrayNoticeState, close_quits: bool)
    ensures
        !s.dont_show_again ==> s.shown(close_quits).visible,
        s.dont_show_again ==> s.shown(close_quits).visible == s.visible,
        s.shown(close_quits).close_quits == close_quits,
        s.shown(close_quits).dont_show_again == s.dont_show_again,
{
}

} // verus!
