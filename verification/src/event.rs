//! Input events and their mapping onto controller transitions.
//!
//! A [`KeyInput`] is the dashboard's own picture of one key press; the
//! surrounding application translates whatever its terminal backend
//! delivers into this type before handing it to [`EventHandler::handle_key`].

use vstd::prelude::*;
use crate::actions::ProcessManager;
use crate::ui::Ui;

verus! {

/// One key press, reduced to what the controller distinguishes.
#[derive(Clone, Copy, Debug, PartialEq, Eq, Structural)]
pub enum KeyInput {
    Char(char),
    Up,
    Down,
    PageUp,
    PageDown,
    Home,
    End,
    Enter,
    Tab,
    Backspace,
    Esc,
    CtrlC,
}

/// Whether a key requests termination of the dashboard loop.
pub open spec fn is_quit_key(key: KeyInput) -> bool {
    key == KeyInput::Char('q') || key == KeyInput::Char('Q') || key == KeyInput::CtrlC
}

/// Whether a character is one of the panel digits 1 through 5.
pub open spec fn is_digit_key(c: char) -> bool {
    c == '1' || c == '2' || c == '3' || c == '4' || c == '5'
}

/// The panel (or settings-category) ordinal a digit key selects.
pub open spec fn digit_ordinal(c: char) -> int {
    if c == '1' {
        0
    } else if c == '2' {
        1
    } else if c == '3' {
        2
    } else if c == '4' {
        3
    } else {
        4
    }
}

/// Maps key presses onto controller transitions. Holds the refresh
/// interval that bounds the application's input poll, so that the
/// controller re-samples even when no key arrives.
pub struct EventHandler {
    pub refresh_interval: u64,
}

impl EventHandler {
    /// A handler whose input poll is bounded by the given interval in
    /// milliseconds.
    pub fn new(refresh_interval: u64) -> (r: EventHandler)
        ensures
            r.refresh_interval == refresh_interval,
    {
        EventHandler { refresh_interval }
    }

    /// Applies one key press to the dashboard state, dispatching
    /// destructive actions through the process manager, and reports
    /// whether the key requests quitting.
    ///
    /// Digits and the panel-cycling key are ignored while a modal is
    /// open; the action, pause, theme and search keys are ignored while
    /// search is active (their characters then feed the query); the
    /// confirm key completes a pending kill only while the
    /// kill-confirmation modal is shown.
    pub fn handle_key<M: ProcessManager>(&self, key: KeyInput, ui: &mut Ui, mgr: &M) -> (quit:
        bool)
        requires
            old(ui).inv(),
        ensures
            final(ui).inv(),
            quit == is_quit_key(key),
            is_quit_key(key) ==> *final(ui) == *old(ui),
            key == KeyInput::Char('/') && !old(ui).search_mode && old(ui).active_panel != 1
                ==> *final(ui) == *old(ui),
            key == KeyInput::Char('/') && !old(ui).search_mode && old(ui).active_panel == 1 ==> {
                &&& final(ui).search_mode
                &&& final(ui).search_query@ == Seq::<char>::empty()
            },
            key == KeyInput::Esc && old(ui).search_mode ==> {
                &&& !final(ui).search_mode
                &&& final(ui).search_query@ == Seq::<char>::empty()
                &&& final(ui).filtered() == crate::view::filtered_view(
                    old(ui).process_data@,
                    Seq::<char>::empty(),
                )
            },
            key == KeyInput::Esc && !old(ui).search_mode ==> {
                &&& !final(ui).show_modal
                &&& final(ui).pending_kill_pid is None
            },
            key == KeyInput::Char('p') && !old(ui).search_mode ==> final(ui).paused == !old(
                ui,
            ).paused,
            key == KeyInput::Char('t') && !old(ui).search_mode ==> final(ui).theme
                == crate::ui::next_theme(old(ui).theme),
            key matches KeyInput::Char(c) ==> (is_digit_key(c) && old(ui).show_modal
                ==> *final(ui) == *old(ui)),
            key matches KeyInput::Char(c) ==> (is_digit_key(c) && !old(ui).show_modal && old(
                ui,
            ).active_panel != 4 ==> {
                &&& final(ui).active_panel == digit_ordinal(c)
                &&& final(ui).scroll_offset == 0
            }),
            key matches KeyInput::Char(c) ==> (is_digit_key(c) && !old(ui).show_modal && old(
                ui,
            ).active_panel == 4 ==> {
                &&& final(ui).active_panel == 4
                &&& final(ui).settings_state.selected_category == digit_ordinal(c)
            }),
            key == KeyInput::Tab && old(ui).show_modal ==> *final(ui) == *old(ui),
            key == KeyInput::Tab && !old(ui).show_modal ==> {
                &&& final(ui).active_panel == (old(ui).active_panel + 1) % 5
                &&& final(ui).scroll_offset == 0
            },
            key == KeyInput::Enter && old(ui).selection_target() is None ==> *final(ui) == *old(
                ui,
            ),
            key == KeyInput::Enter ==> (old(ui).selection_target() matches Some(t) ==> {
                &&& final(ui).show_modal
                &&& final(ui).modal_type == crate::ui::ModalType::ProcessDetail
                &&& final(ui).modal_message@ == crate::ui::detail_message_spec(
                    old(ui).process_data@[t],
                )
            }),
            key == KeyInput::Char('k') && !old(ui).search_mode && old(ui).selection_target()
                is None ==> *final(ui) == *old(ui),
            key == KeyInput::Char('k') && !old(ui).search_mode ==> (old(ui).selection_target()
                matches Some(t) ==> {
                &&& final(ui).show_modal
                &&& final(ui).modal_type == crate::ui::ModalType::KillConfirm
                &&& final(ui).pending_kill_pid == Some(old(ui).process_data@[t].pid)
            }),
            key == KeyInput::Char('s') && !old(ui).search_mode && old(ui).selection_target()
                is None ==> *final(ui) == *old(ui),
            key == KeyInput::Char('r') && !old(ui).search_mode && old(ui).selection_target()
                is None ==> *final(ui) == *old(ui),
            key == KeyInput::Char('y') && !old(ui).search_mode && old(ui).show_modal && old(
                ui,
            ).modal_type == crate::ui::ModalType::KillConfirm ==> (old(ui).pending_kill_pid
                matches Some(pid) ==> {
                &&& final(ui).pending_kill_pid is None
                &&& final(ui).modal_type == crate::ui::ModalType::ProcessDetail
                &&& (pid <= 1 ==> final(ui).modal_message@ == crate::ui::kill_err_message_spec(
                    pid as int,
                    crate::actions::ActionError::SystemProcess,
                ))
            }),
            key matches KeyInput::Char(c) ==> (old(ui).search_mode && !is_quit_key(key)
                && !is_digit_key(c) ==> {
                &&& final(ui).search_query@ == old(ui).search_query@.push(c)
                &&& final(ui).selected_process_index == 0
                &&& final(ui).filtered() == crate::view::filtered_view(
                    old(ui).process_data@,
                    old(ui).search_query@.push(c),
                )
            }),
            key == KeyInput::Backspace && !old(ui).search_mode ==> *final(ui) == *old(ui),
            key == KeyInput::Backspace && old(ui).search_mode && old(ui).search_query@.len() > 0
                ==> final(ui).search_query@ == old(ui).search_query@.drop_last(),
            (key == KeyInput::Up || key == KeyInput::Down || key == KeyInput::PageUp || key
                == KeyInput::PageDown || key == KeyInput::Home || key == KeyInput::End) ==> {
                &&& crate::ui::same_snapshots(*final(ui), *old(ui))
                &&& crate::ui::same_modal(*final(ui), *old(ui))
                &&& crate::ui::same_search(*final(ui), *old(ui))
                &&& final(ui).active_panel == old(ui).active_panel
                &&& final(ui).theme == old(ui).theme
                &&& final(ui).paused == old(ui).paused
                &&& final(ui).filtered_process_indices == old(ui).filtered_process_indices
            },
    {
        match key {
            KeyInput::Char(c) => {
                if c == 'q' || c == 'Q' {
                    return true;
                }
                if c == '1' || c == '2' || c == '3' || c == '4' || c == '5' {
                    if !ui.is_modal_open() {
                        let ordinal: usize = if c == '1' {
                            0
                        } else if c == '2' {
                            1
                        } else if c == '3' {
                            2
                        } else if c == '4' {
                            3
                        } else {
                            4
                        };
                        if ui.is_in_settings_panel() {
                            ui.set_settings_category(ordinal);
                        } else {
                            ui.set_active_panel(ordinal);
                        }
                    }
                    return false;
                }
                if !ui.is_search_mode() {
                    if c == 'y' && ui.is_kill_confirm_modal() {
                        ui.confirm_kill(mgr);
                    } else if c == 'k' {
                        ui.kill_selected_process();
                    } else if c == 's' {
                        ui.suspend_selected_process(mgr);
                    } else if c == 'r' {
                        ui.resume_selected_process(mgr);
                    } else if c == 'p' {
                        ui.toggle_pause();
                    } else if c == 't' {
                        ui.toggle_theme();
                    } else if c == '/' {
                        ui.start_search();
                    }
                } else {
                    ui.search_input(c);
                }
                false
            },
            KeyInput::CtrlC => true,
            KeyInput::Tab => {
                if !ui.is_modal_open() {
                    ui.next_panel();
                }
                false
            },
            KeyInput::Up => {
                ui.scroll_up();
                false
            },
            KeyInput::Down => {
                ui.scroll_down();
                false
            },
            KeyInput::PageUp => {
                ui.page_up();
                false
            },
            KeyInput::PageDown => {
                ui.page_down();
                false
            },
            KeyInput::Home => {
                ui.scroll_to_top();
                false
            },
            KeyInput::End => {
                ui.scroll_to_bottom();
                false
            },
            KeyInput::Enter => {
                ui.show_details();
                false
            },
            KeyInput::Esc => {
                ui.cancel_action();
                false
            },
            KeyInput::Backspace => {
                if ui.is_search_mode() {
                    ui.search_backspace();
                }
                false
            },
        }
    }
}

} // verus!
