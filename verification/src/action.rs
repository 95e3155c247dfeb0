//! Everything the terminal front end can be asked to do.

use vstd::prelude::*;
use crate::protocol::{EventView, PythonEvent};

verus! {

/// All possible application actions.
pub enum Action {
    SwitchPanel,
    FocusNext,
    FocusPrev,
    CharInput(char),
    Backspace,
    EnterField,
    ExitField,
    OpenDropdown,
    CloseDropdown,
    SelectDropdownItem(usize),
    DropdownUp,
    DropdownDown,
    StartTranslation,
    CancelTranslation,
    PythonEvent(PythonEvent),
    SaveConfig,
    AddFile(String),
    RemoveFile(usize),
    DeleteFocusedFile,
    BackToConfigure,
    Resize(u16, u16),
    Tick,
    Quit,
    ShowError(String),
    DismissPopup,
    ShowHelp,
    Nothing,
}

/// The mathematical form of an [`Action`].
pub enum ActionView {
    SwitchPanel,
    FocusNext,
    FocusPrev,
    CharInput(char),
    Backspace,
    EnterField,
    ExitField,
    OpenDropdown,
    CloseDropdown,
    SelectDropdownItem(usize),
    DropdownUp,
    DropdownDown,
    StartTranslation,
    CancelTranslation,
    PythonEvent(EventView),
    SaveConfig,
    AddFile(Seq<char>),
    RemoveFile(usize),
    DeleteFocusedFile,
    BackToConfigure,
    Resize(u16, u16),
    Tick,
    Quit,
    ShowError(Seq<char>),
    DismissPopup,
    ShowHelp,
    Nothing,
}

impl View for Action {
    type V = ActionView;

    open spec fn view(&self) -> ActionView {
        match self {
            Action::SwitchPanel => ActionView::SwitchPanel,
            Action::FocusNext => ActionView::FocusNext,
            Action::FocusPrev => ActionView::FocusPrev,
            Action::CharInput(c) => ActionView::CharInput(*c),
            Action::Backspace => ActionView::Backspace,
            Action::EnterField => ActionView::EnterField,
            Action::ExitField => ActionView::ExitField,
            Action::OpenDropdown => ActionView::OpenDropdown,
            Action::CloseDropdown => ActionView::CloseDropdown,
            Action::SelectDropdownItem(i) => ActionView::SelectDropdownItem(*i),
            Action::DropdownUp => ActionView::DropdownUp,
            Action::DropdownDown => ActionView::DropdownDown,
            Action::StartTranslation => ActionView::StartTranslation,
            Action::CancelTranslation => ActionView::CancelTranslation,
            Action::PythonEvent(e) => ActionView::PythonEvent(e@),
            Action::SaveConfig => ActionView::SaveConfig,
            Action::AddFile(p) => ActionView::AddFile(p@),
            Action::RemoveFile(i) => ActionView::RemoveFile(*i),
            Action::DeleteFocusedFile => ActionView::DeleteFocusedFile,
            Action::BackToConfigure => ActionView::BackToConfigure,
            Action::Resize(w, h) => ActionView::Resize(*w, *h),
            Action::Tick => ActionView::Tick,
            Action::Quit => ActionView::Quit,
            Action::ShowError(m) => ActionView::ShowError(m@),
            Action::DismissPopup => ActionView::DismissPopup,
            Action::ShowHelp => ActionView::ShowHelp,
            Action::Nothing => ActionView::Nothing,
        }
    }
}

} // verus!
