//! How the window, the tray icon and the tray menu react to user input, and how quitting
//! is confirmed exactly once.
use vstd::prelude::*;

verus! {

/// Whether the application has started quitting.
#[derive(Debug)]
pub struct ActionState {
    pub quitting: bool,
}

/// A fresh state: not quitting.
pub fn new_action_state() -> (r: ActionState)
    ensures
        !r.quitting,
{
    ActionState { quitting: false }
}

/// A tray icon event.
#[derive(Debug)]
pub enum TrayInput {
    DoubleClick,
    Other,
}

/// A tray menu entry.
#[derive(Debug)]
pub enum MenuChoice {
    Show,
    Quit,
    Other,
}

/// What the shell does in response.
#[derive(Debug)]
pub enum UiAction {
    Nothing,
    ShowMainWindow,
    AskToQuit,
    HideInsteadOfClosing,
    AllowClose,
    /// Disable the quit entry, close the window and exit.
    Exit,
}

/// The reaction to a tray icon event.
pub open spec fn tray_reaction(st: ActionState, input: TrayInput) -> UiAction {
    if !st.quitting && input is DoubleClick { UiAction::ShowMainWindow } else { UiAction::Nothing }
}

/// The reaction to a tray menu entry.
pub open spec fn menu_reaction(st: ActionState, choice: MenuChoice) -> UiAction {
    if st.quitting {
        UiAction::Nothing
    } else {
        match choice {
            MenuChoice::Show => UiAction::ShowMainWindow,
            MenuChoice::Quit => UiAction::AskToQuit,
            MenuChoice::Other => UiAction::Nothing,
        }
    }
}

/// The reaction to a request to close the main window.
pub open spec fn close_reaction(st: ActionState) -> UiAction {
    if st.quitting { UiAction::AllowClose } else { UiAction::HideInsteadOfClosing }
}

/// The reaction to the answer to the quit question.
pub open spec fn quit_reaction(st: ActionState, confirmed: bool) -> UiAction {
    if confirmed && !st.quitting { UiAction::Exit } else { UiAction::Nothing }
}

/// A double click on the tray icon opens the main window, unless the app is quitting.
pub fn on_tray_event(st: &ActionState, input: TrayInput) -> (r: UiAction)
    ensures
        r == tray_reaction(*st, input),
{
    if st.quitting {
        return UiAction::Nothing;
    }
    match input {
        TrayInput::DoubleClick => UiAction::ShowMainWindow,
        TrayInput::Other => UiAction::Nothing,
    }
}

/// The tray menu opens the window or asks to quit, unless the app is quitting.
pub fn on_menu_event(st: &ActionState, choice: MenuChoice) -> (r: UiAction)
    ensures
        r == menu_reaction(*st, choice),
{
    if st.quitting {
        return UiAction::Nothing;
    }
    match choice {
        MenuChoice::Show => UiAction::ShowMainWindow,
        MenuChoice::Quit => UiAction::AskToQuit,
        MenuChoice::Other => UiAction::Nothing,
    }
}

/// Closing the window hides it to the tray; only a quit in progress lets it close.
pub fn on_close_requested(st: &ActionState) -> (r: UiAction)
    ensures
        r == close_reaction(*st),
{
    if st.quitting { UiAction::AllowClose } else { UiAction::HideInsteadOfClosing }
}

/// The answer to the quit question. A confirmed quit starts quitting once; a second
/// confirmation, or a refusal, does nothing. Once quitting, the state stays quitting.
pub fn on_quit_answer(st: &mut ActionState, confirmed: bool) -> (r: UiAction)
    ensures
        final(st).quitting == (old(st).quitting || confirmed),
        r == quit_reaction(*old(st), confirmed),
{
    if !confirmed {
        return UiAction::Nothing;
    }
    let was = st.quitting;
    st.quitting = true;
    if was { UiAction::Nothing } else { UiAction::Exit }
}

/// Once quitting has begun, no input shows the window, asks to quit again or exits again,
/// and closing the window is let through.
pub proof fn lemma_quitting_is_final(st: ActionState, input: TrayInput, choice: MenuChoice, confirmed: bool)
    requires
        st.quitting,
    ensures
        tray_reaction(st, input) == UiAction::Nothing,
        menu_reaction(st, choice) == UiAction::Nothing,
        close_reaction(st) == UiAction::AllowClose,
        quit_reaction(st, confirmed) == UiAction::Nothing,
{
}

} // verus!
