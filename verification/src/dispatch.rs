//! `App::apply`: one action, one change of state.

use vstd::prelude::*;
use crate::action::{Action, ActionView};
use crate::app::{app_wf, ActivePanel, App, AppView, Popup, Screen};
use crate::platform::home_dir;
use crate::protocol::strings_view;
use crate::update::{action_ok, add_file, apply_action};

verus! {

impl App {
    /// `Action::SwitchPanel`: the other panel becomes active; editing and
    /// any open dropdown end.
    #[verifier::spinoff_prover]
    fn switch_panel(&mut self)
        ensures
            final(self)@ == apply_action(old(self)@, ActionView::SwitchPanel),
    {
        self.active_panel = match self.active_panel {
            ActivePanel::Left => ActivePanel::Right,
            ActivePanel::Right => ActivePanel::Left,
        };
        self.editing = false;
        self.dropdown_open = None;
    }

    /// `Action::FocusNext`: the focus moves down, stopping at the last field.
    #[verifier::spinoff_prover]
    fn focus_next(&mut self)
        requires
            old(self).wf(),
            old(self).focused_field < usize::MAX,
        ensures
            final(self)@ == apply_action(old(self)@, ActionView::FocusNext),
    {
        let max = self.max_fields();
        if self.focused_field + 1 < max {
            self.focused_field = self.focused_field + 1;
        }
    }

    /// `Action::DropdownDown`: the cursor moves down, stopping at the last
    /// item.
    #[verifier::spinoff_prover]
    fn dropdown_down(&mut self)
        requires
            old(self).dropdown_open is Some ==> old(self).dropdown_cursor < usize::MAX,
        ensures
            final(self)@ == apply_action(old(self)@, ActionView::DropdownDown),
    {
        match self.dropdown_open {
            Some(t) => {
                let max = self.dropdown_len(t);
                if self.dropdown_cursor + 1 < max {
                    self.dropdown_cursor = self.dropdown_cursor + 1;
                }
            },
            None => {},
        }
    }

    /// `Action::RemoveFile`: the file at `idx`, if any, leaves the selection.
    #[verifier::spinoff_prover]
    fn remove_file(&mut self, idx: usize)
        ensures
            final(self)@ == apply_action(old(self)@, ActionView::RemoveFile(idx)),
    {
        if idx < self.selected_files.len() {
            let ghost before = self.selected_files@;
            self.selected_files.remove(idx);
            proof {
                assert(strings_view(self.selected_files@) =~= strings_view(before).remove(idx as int));
            }
        }
    }

    /// `Action::DeleteFocusedFile`: with the focus on the file input, the
    /// last selected file leaves the selection.
    #[verifier::spinoff_prover]
    fn delete_focused_file(&mut self)
        ensures
            final(self)@ == apply_action(old(self)@, ActionView::DeleteFocusedFile),
    {
        if self.focused_field == 0 && self.selected_files.len() > 0 {
            let ghost before = self.selected_files@;
            self.selected_files.pop();
            proof {
                assert(strings_view(self.selected_files@) =~= strings_view(before).drop_last());
            }
        }
    }

    /// `Action::BackToConfigure`: back to the form; results and usage are
    /// dropped.
    #[verifier::spinoff_prover]
    fn back_to_configure(&mut self)
        ensures
            final(self)@ == apply_action(old(self)@, ActionView::BackToConfigure),
    {
        self.screen = Screen::Configure;
        self.results.clear();
        self.token_usage = None;
        proof {
            assert(crate::app::jsons_view(self.results@) =~= Seq::<crate::json::Json>::empty());
        }
    }

    /// A typed character: a search in an open dropdown, else input into
    /// the field being edited.
    fn char_action(&mut self, c: char)
        requires
            old(self).wf(),
        ensures
            final(self)@ == apply_action(old(self)@, ActionView::CharInput(c)),
    {
        if self.dropdown_open.is_some() {
            self.dropdown_type_search(c);
        } else if self.editing {
            self.handle_char_input(c);
        }
    }

    /// Applies one of the actions that move the focus or edit the form.
    #[verifier::spinoff_prover]
    #[verifier::rlimit(40)]
    fn apply_form_action(&mut self, action: Action)
        requires
            old(self).wf(),
            action_ok(old(self)@, action@),
            is_form_action(action@),
        ensures
            final(self)@ == apply_action(old(self)@, action@),
    {
        match action {
            Action::SwitchPanel => self.switch_panel(),
            Action::FocusNext => self.focus_next(),
            Action::FocusPrev => {
                self.focused_field = if self.focused_field > 0 {
                    self.focused_field - 1
                } else {
                    0
                };
            },
            Action::EnterField => self.enter_field(),
            Action::ExitField => self.exit_field(),
            Action::CharInput(c) => self.char_action(c),
            Action::Backspace => {
                if self.editing {
                    self.handle_backspace();
                }
            },
            Action::DropdownUp => {
                if self.dropdown_cursor > 0 {
                    self.dropdown_cursor = self.dropdown_cursor - 1;
                }
            },
            Action::DropdownDown => self.dropdown_down(),
            Action::SelectDropdownItem(idx) => self.select_dropdown_item(idx),
            Action::CloseDropdown => self.dropdown_open = None,
            Action::OpenDropdown => {
                match self.dropdown_target() {
                    Some(t) => self.open_dropdown_at(t),
                    None => {},
                }
            },
            _ => {},
        }
    }

    /// Applies one of the other actions but `AddFile`.
    #[verifier::spinoff_prover]
    #[verifier::rlimit(40)]
    fn apply_session_action(&mut self, action: Action)
        requires
            action_ok(old(self)@, action@),
            !is_form_action(action@),
            !(action@ is AddFile),
        ensures
            final(self)@ == apply_action(old(self)@, action@),
    {
        match action {
            Action::Quit => self.should_quit = true,
            Action::RemoveFile(idx) => self.remove_file(idx),
            Action::DeleteFocusedFile => self.delete_focused_file(),
            Action::BackToConfigure => self.back_to_configure(),
            Action::ShowError(msg) => self.popup = Some(Popup::Error(msg)),
            Action::ShowHelp => self.popup = Some(Popup::Help),
            Action::DismissPopup => self.popup = None,
            Action::PythonEvent(event) => self.handle_python_event(event),
            _ => {},
        }
    }

    /// Applies an action. `AddFile` resolves `~/` against the home
    /// directory, whatever the environment gives for it; every other action
    /// changes the state as [`apply_action`] says.
    pub fn apply(&mut self, action: Action)
        requires
            old(self).wf(),
            action_ok(old(self)@, action@),
        ensures
            final(self).wf(),
            action@ is AddFile ==> exists|h: Option<Seq<char>>|
                final(self)@ == add_file(old(self)@, action@->AddFile_0, h),
            !(action@ is AddFile) ==> final(self)@ == apply_action(old(self)@, action@),
    {
        let ghost v0 = self@;
        let ghost a = action@;
        match action {
            Action::AddFile(path) => {
                let home = home_dir();
                let ghost h = match &home {
                    Some(s) => Some(s@),
                    None => None,
                };
                self.add_file_with_home(path.as_str(), home);
                assert(a->AddFile_0 == path@);
                assert(self@ == add_file(v0, a->AddFile_0, h));
            },
            other => {
                if is_form(&other) {
                    self.apply_form_action(other);
                } else {
                    self.apply_session_action(other);
                }
                proof {
                    law_actions_keep_limits(v0, a);
                }
            },
        }
    }
}

/// Does the action move the focus or edit the form?
pub open spec fn is_form_action(a: ActionView) -> bool {
    match a {
        ActionView::SwitchPanel | ActionView::FocusNext | ActionView::FocusPrev | ActionView::EnterField
        | ActionView::ExitField | ActionView::CharInput(_) | ActionView::Backspace
        | ActionView::DropdownUp | ActionView::DropdownDown | ActionView::SelectDropdownItem(_)
        | ActionView::CloseDropdown | ActionView::OpenDropdown => true,
        _ => false,
    }
}

fn is_form(a: &Action) -> (r: bool)
    ensures
        r == is_form_action(a@),
{
    match a {
        Action::SwitchPanel | Action::FocusNext | Action::FocusPrev | Action::EnterField
        | Action::ExitField | Action::CharInput(_) | Action::Backspace | Action::DropdownUp
        | Action::DropdownDown | Action::SelectDropdownItem(_) | Action::CloseDropdown
        | Action::OpenDropdown => true,
        _ => false,
    }
}

/// A backend event keeps the machine limits of the state.
proof fn lemma_event_keeps_wf(v: AppView, e: crate::protocol::EventView)
    requires
        app_wf(v),
        crate::update::event_ok(v, e),
    ensures
        app_wf(crate::update::event_update(v, e)),
{
    let w = crate::update::event_update(v, e);
    match e {
        crate::protocol::EventView::ConfigSchema {engines, languages } => {
            assert(w.engine_schemas == engines);
            assert(w.selected_files == v.selected_files);
        },
        _ => {
            assert(w.engine_schemas == v.engine_schemas);
            assert(w.selected_files == v.selected_files);
        },
    }
}

/// Every action but `AddFile` keeps the machine limits of the state.
#[verifier::spinoff_prover]
#[verifier::rlimit(40)]
pub proof fn law_actions_keep_limits(v: AppView, a: ActionView)
    requires
        app_wf(v),
        action_ok(v, a),
        !(a is AddFile),
    ensures
        app_wf(apply_action(v, a)),
{
    let w = apply_action(v, a);
    match a {
        ActionView::PythonEvent(e) => lemma_event_keeps_wf(v, e),
        ActionView::RemoveFile(i) => {
            assert(w.engine_schemas == v.engine_schemas);
            assert(w.selected_files.len() <= v.selected_files.len());
        },
        ActionView::DeleteFocusedFile => {
            assert(w.engine_schemas == v.engine_schemas);
            assert(w.selected_files.len() <= v.selected_files.len());
        },
        ActionView::EnterField => {
            assert(w.engine_schemas == v.engine_schemas && w.selected_files == v.selected_files);
        },
        ActionView::CharInput(c) => {
            assert(w.engine_schemas == v.engine_schemas && w.selected_files == v.selected_files);
        },
        ActionView::Backspace => {
            assert(w.engine_schemas == v.engine_schemas && w.selected_files == v.selected_files);
        },
        ActionView::SelectDropdownItem(i) => {
            assert(w.engine_schemas == v.engine_schemas && w.selected_files == v.selected_files);
        },
        ActionView::ExitField => {
            assert(w.engine_schemas == v.engine_schemas && w.selected_files == v.selected_files);
        },
        _ => {
            assert(w.engine_schemas == v.engine_schemas && w.selected_files == v.selected_files);
        },
    }
}

} // verus!
