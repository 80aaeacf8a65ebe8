//! The dashboard controller: a pure state machine over panels, scrolling,
//! selection, search, modal workflows and settings, driven by discrete
//! input events and snapshot updates.
//!
//! Panels are numbered 0 through 4: Overview, Processes, Network, Disk,
//! Settings. Orthogonal to the panel are the search axis (inactive, or
//! active with a query) and the modal axis (closed, kill confirmation,
//! or a detail text).

use vstd::prelude::*;
use vstd::string::*;
use crate::actions::{self, ActionError, ProcessManager};
use crate::monitor::{
    BatteryInfo, CpuSnapshot, DiskInfo, DiskSnapshot, MemorySnapshot, NetworkSnapshot, ProcessInfo,
};
use crate::utils;
use crate::view;

verus! {

/// The color theme, cycled by the theme key.
#[derive(Clone, Copy, Debug, PartialEq, Eq, Structural)]
pub enum Theme {
    Dark,
    Light,
    Dracula,
}

/// The theme following `t` in the cycle Dark, Light, Dracula, Dark.
pub open spec fn next_theme(t: Theme) -> Theme {
    match t {
        Theme::Dark => Theme::Light,
        Theme::Light => Theme::Dracula,
        Theme::Dracula => Theme::Dark,
    }
}

/// Toggling the theme three times returns to the original theme.
pub proof fn lemma_theme_cycle(t: Theme)
    ensures
        next_theme(next_theme(next_theme(t))) == t,
{
}

/// Toggling pause twice restores the original flag, so snapshot
/// acquisition returns to its original cadence.
pub proof fn lemma_pause_toggle_twice(p: bool)
    ensures
        !!p == p,
{
}

/// In every well-formed state the selection cursor lies strictly below
/// `max(1, len)` of the filtered view; with an empty view the cursor is
/// 0 and there is no selection target, so every selection-dependent
/// action is a no-op.
pub proof fn lemma_cursor_in_bounds(u: Ui)
    requires
        u.inv(),
    ensures
        0 <= u.selected_process_index,
        u.selected_process_index < if u.filtered_process_indices@.len() == 0 {
            1int
        } else {
            u.filtered_process_indices@.len() as int
        },
        u.filtered_process_indices@.len() == 0 ==> u.selected_process_index == 0
            && u.selection_target() is None,
{
}

/// Which overlay, if any, currently blocks navigation. `Inactive` means
/// no modal is shown.
#[derive(Clone, Copy, Debug, PartialEq, Eq, Structural)]
pub enum ModalType {
    Inactive,
    KillConfirm,
    ProcessDetail,
}

/// User-adjustable settings shown in the Settings panel.
#[derive(Debug, Clone)]
pub struct SettingsState {
    pub selected_category: usize,
    pub refresh_interval: u64,
    pub process_limit: usize,
    pub show_graphs: bool,
    pub show_per_core_cpu: bool,
}

/// The two settings states agree on everything except the selected
/// category.
pub open spec fn same_settings_except_category(a: SettingsState, b: SettingsState) -> bool {
    &&& a.refresh_interval == b.refresh_interval
    &&& a.process_limit == b.process_limit
    &&& a.show_graphs == b.show_graphs
    &&& a.show_per_core_cpu == b.show_per_core_cpu
}

/// The dashboard state: active panel, scrolling and selection, search,
/// modal workflow, settings, theme, and the latest telemetry snapshots.
pub struct Ui {
    pub active_panel: usize,
    pub scroll_offset: usize,
    pub theme: Theme,
    pub paused: bool,
    pub show_modal: bool,
    pub modal_message: String,
    pub modal_type: ModalType,
    pub search_mode: bool,
    pub search_query: String,
    pub settings_state: SettingsState,
    pub pending_kill_pid: Option<u32>,
    pub cpu_data: Option<CpuSnapshot>,
    pub memory_data: Option<MemorySnapshot>,
    pub disk_data: Option<DiskSnapshot>,
    pub network_data: Option<NetworkSnapshot>,
    pub battery_data: Option<BatteryInfo>,
    pub process_data: Vec<ProcessInfo>,
    pub disk_list: Vec<DiskInfo>,
    pub selected_process_index: usize,
    pub filtered_process_indices: Vec<usize>,
}

/// The two states hold the same telemetry snapshots.
pub open spec fn same_snapshots(a: Ui, b: Ui) -> bool {
    &&& a.cpu_data == b.cpu_data
    &&& a.memory_data == b.memory_data
    &&& a.disk_data == b.disk_data
    &&& a.network_data == b.network_data
    &&& a.battery_data == b.battery_data
    &&& a.process_data == b.process_data
    &&& a.disk_list == b.disk_list
}

/// The two states agree on the modal axis, including the pending kill
/// target.
pub open spec fn same_modal(a: Ui, b: Ui) -> bool {
    &&& a.show_modal == b.show_modal
    &&& a.modal_message == b.modal_message
    &&& a.modal_type == b.modal_type
    &&& a.pending_kill_pid == b.pending_kill_pid
}

/// The two states agree on the search axis.
pub open spec fn same_search(a: Ui, b: Ui) -> bool {
    &&& a.search_mode == b.search_mode
    &&& a.search_query == b.search_query
}

/// The two states agree on the filtered view and the selection cursor.
pub open spec fn same_selection(a: Ui, b: Ui) -> bool {
    &&& a.filtered_process_indices == b.filtered_process_indices
    &&& a.selected_process_index == b.selected_process_index
}

/// The two states agree on panel, scrolling, theme, pause flag and
/// settings.
pub open spec fn same_prefs(a: Ui, b: Ui) -> bool {
    &&& a.active_panel == b.active_panel
    &&& a.scroll_offset == b.scroll_offset
    &&& a.theme == b.theme
    &&& a.paused == b.paused
    &&& a.settings_state == b.settings_state
}

impl Ui {
    /// The filtered view as a sequence of mathematical indices.
    pub open spec fn filtered(self) -> Seq<int> {
        self.filtered_process_indices@.map_values(|i: usize| i as int)
    }

    /// The selection cursor is within the filtered view, and pinned to 0
    /// when the view is empty.
    pub open spec fn cursor_ok(self) -> bool {
        &&& self.filtered_process_indices@.len() == 0 ==> self.selected_process_index == 0
        &&& self.filtered_process_indices@.len() > 0 ==> self.selected_process_index
            < self.filtered_process_indices@.len()
    }

    /// Well-formedness: the panel and settings category ordinals are in
    /// range, the filtered view is exactly the view derived from the
    /// latest process snapshot and the current query, and the cursor is
    /// clamped against it.
    pub open spec fn inv(self) -> bool {
        &&& self.active_panel <= 4
        &&& self.settings_state.selected_category <= 4
        &&& self.filtered() == view::filtered_view(self.process_data@, self.search_query@)
        &&& self.cursor_ok()
    }

    /// The fresh dashboard: Overview panel, dark theme, not paused, no
    /// modal, search inactive, default settings around the given refresh
    /// interval, and no data yet.
    pub fn with_refresh_interval(refresh_interval: u64) -> (r: Ui)
        ensures
            r.inv(),
            r.active_panel == 0,
            r.scroll_offset == 0,
            r.theme == Theme::Dark,
            !r.paused,
            !r.show_modal,
            r.modal_message@ == Seq::<char>::empty(),
            r.modal_type == ModalType::Inactive,
            !r.search_mode,
            r.search_query@ == Seq::<char>::empty(),
            r.settings_state.selected_category == 0,
            r.settings_state.refresh_interval == refresh_interval,
            r.settings_state.process_limit == 100,
            r.settings_state.show_graphs,
            r.settings_state.show_per_core_cpu,
            r.pending_kill_pid is None,
            r.cpu_data is None,
            r.memory_data is None,
            r.disk_data is None,
            r.network_data is None,
            r.battery_data is None,
            r.process_data@.len() == 0,
            r.disk_list@.len() == 0,
            r.selected_process_index == 0,
            r.filtered_process_indices@.len() == 0,
    {
        let r = Ui {
            active_panel: 0,
            scroll_offset: 0,
            theme: Theme::Dark,
            paused: false,
            show_modal: false,
            modal_message: String::new(),
            modal_type: ModalType::Inactive,
            search_mode: false,
            search_query: String::new(),
            settings_state: SettingsState {
                selected_category: 0,
                refresh_interval,
                process_limit: 100,
                show_graphs: true,
                show_per_core_cpu: true,
            },
            pending_kill_pid: None,
            cpu_data: None,
            memory_data: None,
            disk_data: None,
            network_data: None,
            battery_data: None,
            process_data: Vec::new(),
            disk_list: Vec::new(),
            selected_process_index: 0,
            filtered_process_indices: Vec::new(),
        };
        proof {
            assert(r.filtered() =~= view::filtered_view(r.process_data@, r.search_query@));
        }
        r
    }

    /// Recomputes the filtered view from the current snapshot and query,
    /// and clamps the selection cursor against the new view.
    fn update_filtered_processes(&mut self)
        ensures
            final(self).filtered() == view::filtered_view(
                old(self).process_data@,
                old(self).search_query@,
            ),
            final(self).selected_process_index == view::clamped_cursor(
                old(self).selected_process_index as int,
                final(self).filtered_process_indices@.len() as int,
            ),
            final(self).cursor_ok(),
            same_snapshots(*final(self), *old(self)),
            same_modal(*final(self), *old(self)),
            same_search(*final(self), *old(self)),
            same_prefs(*final(self), *old(self)),
    {
        let indices = view::compute_filtered_indices(&self.process_data, self.search_query.as_str());
        self.selected_process_index = view::clamp_cursor(
            self.selected_process_index,
            indices.len(),
        );
        self.filtered_process_indices = indices;
    }

    /// Applies a freshly acquired snapshot bundle. When the dashboard is
    /// paused the bundle is discarded and the state is unchanged;
    /// otherwise every snapshot is replaced, the filtered view is
    /// recomputed against the unchanged query, and the cursor is clamped.
    #[allow(clippy::too_many_arguments)]
    pub fn apply_snapshots(
        &mut self,
        cpu: CpuSnapshot,
        memory: MemorySnapshot,
        disk: DiskSnapshot,
        network: NetworkSnapshot,
        battery: Option<BatteryInfo>,
        processes: Vec<ProcessInfo>,
        disk_list: Vec<DiskInfo>,
    )
        requires
            old(self).inv(),
        ensures
            final(self).inv(),
            old(self).paused ==> *final(self) == *old(self),
            !old(self).paused ==> {
                &&& final(self).cpu_data == Some(cpu)
                &&& final(self).memory_data == Some(memory)
                &&& final(self).disk_data == Some(disk)
                &&& final(self).network_data == Some(network)
                &&& final(self).battery_data == battery
                &&& final(self).process_data == processes
                &&& final(self).disk_list == disk_list
                &&& final(self).filtered() == view::filtered_view(
                    processes@,
                    old(self).search_query@,
                )
                &&& final(self).selected_process_index == view::clamped_cursor(
                    old(self).selected_process_index as int,
                    final(self).filtered_process_indices@.len() as int,
                )
                &&& same_modal(*final(self), *old(self))
                &&& same_search(*final(self), *old(self))
                &&& same_prefs(*final(self), *old(self))
            },
    {
        if self.paused {
            return ;
        }
        self.cpu_data = Some(cpu);
        self.memory_data = Some(memory);
        self.disk_data = Some(disk);
        self.network_data = Some(network);
        self.battery_data = battery;
        self.process_data = processes;
        self.disk_list = disk_list;
        self.update_filtered_processes();
    }

    /// Switches to the given panel (clamped to the last ordinal), resets
    /// the scroll offset, and resets the settings category when the
    /// Settings panel is entered.
    pub fn set_active_panel(&mut self, index: usize)
        requires
            old(self).inv(),
        ensures
            final(self).inv(),
            final(self).active_panel == if index < 4 { index as int } else { 4int },
            final(self).scroll_offset == 0,
            final(self).settings_state.selected_category == if final(self).active_panel == 4 {
                0int
            } else {
                old(self).settings_state.selected_category as int
            },
            same_settings_except_category(final(self).settings_state, old(self).settings_state),
            final(self).theme == old(self).theme,
            final(self).paused == old(self).paused,
            same_snapshots(*final(self), *old(self)),
            same_modal(*final(self), *old(self)),
            same_search(*final(self), *old(self)),
            same_selection(*final(self), *old(self)),
    {
        self.active_panel = if index < 4 {
            index
        } else {
            4
        };
        self.scroll_offset = 0;
        if self.active_panel == 4 {
            self.settings_state.selected_category = 0;
        }
    }

    /// Selects a settings category (clamped to the last ordinal), but
    /// only while the Settings panel is active.
    pub fn set_settings_category(&mut self, category: usize)
        requires
            old(self).inv(),
        ensures
            final(self).inv(),
            old(self).active_panel == 4 ==> final(self).settings_state.selected_category == if
                category < 4 {
                category as int
            } else {
                4int
            },
            old(self).active_panel != 4 ==> final(self).settings_state
                == old(self).settings_state,
            same_settings_except_category(final(self).settings_state, old(self).settings_state),
            final(self).active_panel == old(self).active_panel,
            final(self).scroll_offset == old(self).scroll_offset,
            final(self).theme == old(self).theme,
            final(self).paused == old(self).paused,
            same_snapshots(*final(self), *old(self)),
            same_modal(*final(self), *old(self)),
            same_search(*final(self), *old(self)),
            same_selection(*final(self), *old(self)),
    {
        if self.active_panel == 4 {
            self.settings_state.selected_category = if category < 4 {
                category
            } else {
                4
            };
        }
    }

    /// Advances to the next panel, wrapping after the last, and resets
    /// the scroll offset.
    pub fn next_panel(&mut self)
        requires
            old(self).inv(),
        ensures
            final(self).inv(),
            final(self).active_panel == (old(self).active_panel + 1) % 5,
            final(self).scroll_offset == 0,
            final(self).settings_state == old(self).settings_state,
            final(self).theme == old(self).theme,
            final(self).paused == old(self).paused,
            same_snapshots(*final(self), *old(self)),
            same_modal(*final(self), *old(self)),
            same_search(*final(self), *old(self)),
            same_selection(*final(self), *old(self)),
    {
        self.active_panel = (self.active_panel + 1) % 5;
        self.scroll_offset = 0;
    }

    /// Moves the selection up one entry in the Processes panel (pulling
    /// the scroll offset along), or the settings category up one in the
    /// Settings panel; elsewhere a no-op.
    pub fn scroll_up(&mut self)
        requires
            old(self).inv(),
        ensures
            final(self).inv(),
            old(self).active_panel == 1 ==> {
                &&& final(self).selected_process_index as int == if old(
                    self,
                ).selected_process_index > 0 {
                    old(self).selected_process_index - 1
                } else {
                    0int
                }
                &&& final(self).scroll_offset as int == if old(self).selected_process_index > 0
                    && old(self).selected_process_index - 1 < old(self).scroll_offset {
                    old(self).selected_process_index - 1
                } else {
                    old(self).scroll_offset as int
                }
                &&& final(self).settings_state == old(self).settings_state
            },
            old(self).active_panel == 4 ==> {
                &&& final(self).settings_state.selected_category as int == if old(
                    self,
                ).settings_state.selected_category > 0 {
                    old(self).settings_state.selected_category - 1
                } else {
                    0int
                }
                &&& same_settings_except_category(
                    final(self).settings_state,
                    old(self).settings_state,
                )
                &&& final(self).selected_process_index == old(self).selected_process_index
                &&& final(self).scroll_offset == old(self).scroll_offset
            },
            old(self).active_panel != 1 && old(self).active_panel != 4 ==> {
                &&& final(self).selected_process_index == old(self).selected_process_index
                &&& final(self).scroll_offset == old(self).scroll_offset
                &&& final(self).settings_state == old(self).settings_state
            },
            final(self).active_panel == old(self).active_panel,
            final(self).theme == old(self).theme,
            final(self).paused == old(self).paused,
            final(self).filtered_process_indices == old(self).filtered_process_indices,
            same_snapshots(*final(self), *old(self)),
            same_modal(*final(self), *old(self)),
            same_search(*final(self), *old(self)),
    {
        if self.active_panel == 1 {
            if self.selected_process_index > 0 {
                self.selected_process_index = self.selected_process_index - 1;
                if self.selected_process_index < self.scroll_offset {
                    self.scroll_offset = self.selected_process_index;
                }
            }
        } else if self.active_panel == 4 {
            if self.settings_state.selected_category > 0 {
                self.settings_state.selected_category = self.settings_state.selected_category - 1;
            }
        }
    }

    /// Moves the selection down one entry in the Processes panel
    /// (clamped to the last entry of the filtered view), or the settings
    /// category down one in the Settings panel; elsewhere a no-op.
    pub fn scroll_down(&mut self)
        requires
            old(self).inv(),
        ensures
            final(self).inv(),
            old(self).active_panel == 1 ==> {
                &&& final(self).selected_process_index as int == if old(
                    self,
                ).selected_process_index + 1 < old(self).filtered_process_indices@.len() {
                    old(self).selected_process_index + 1
                } else {
                    old(self).selected_process_index as int
                }
                &&& final(self).settings_state == old(self).settings_state
            },
            old(self).active_panel == 4 ==> {
                &&& final(self).settings_state.selected_category as int == if old(
                    self,
                ).settings_state.selected_category < 4 {
                    old(self).settings_state.selected_category + 1
                } else {
                    old(self).settings_state.selected_category as int
                }
                &&& same_settings_except_category(
                    final(self).settings_state,
                    old(self).settings_state,
                )
                &&& final(self).selected_process_index == old(self).selected_process_index
            },
            old(self).active_panel != 1 && old(self).active_panel != 4 ==> {
                &&& final(self).selected_process_index == old(self).selected_process_index
                &&& final(self).settings_state == old(self).settings_state
            },
            final(self).active_panel == old(self).active_panel,
            final(self).scroll_offset == old(self).scroll_offset,
            final(self).theme == old(self).theme,
            final(self).paused == old(self).paused,
            final(self).filtered_process_indices == old(self).filtered_process_indices,
            same_snapshots(*final(self), *old(self)),
            same_modal(*final(self), *old(self)),
            same_search(*final(self), *old(self)),
    {
        if self.active_panel == 1 {
            let max_index = if self.filtered_process_indices.len() == 0 {
                0
            } else {
                self.filtered_process_indices.len() - 1
            };
            if self.selected_process_index < max_index {
                self.selected_process_index = self.selected_process_index + 1;
            }
        } else if self.active_panel == 4 {
            if self.settings_state.selected_category < 4 {
                self.settings_state.selected_category = self.settings_state.selected_category + 1;
            }
        }
    }

    /// Moves the selection ten entries up in the Processes panel, or
    /// jumps to the first settings category in the Settings panel.
    pub fn page_up(&mut self)
        requires
            old(self).inv(),
        ensures
            final(self).inv(),
            old(self).active_panel == 1 ==> {
                &&& final(self).selected_process_index as int == if old(
                    self,
                ).selected_process_index >= 10 {
                    old(self).selected_process_index - 10
                } else {
                    0int
                }
                &&& final(self).settings_state == old(self).settings_state
            },
            old(self).active_panel == 4 ==> {
                &&& final(self).settings_state.selected_category == 0
                &&& same_settings_except_category(
                    final(self).settings_state,
                    old(self).settings_state,
                )
                &&& final(self).selected_process_index == old(self).selected_process_index
            },
            old(self).active_panel != 1 && old(self).active_panel != 4 ==> {
                &&& final(self).selected_process_index == old(self).selected_process_index
                &&& final(self).settings_state == old(self).settings_state
            },
            final(self).active_panel == old(self).active_panel,
            final(self).scroll_offset == old(self).scroll_offset,
            final(self).theme == old(self).theme,
            final(self).paused == old(self).paused,
            final(self).filtered_process_indices == old(self).filtered_process_indices,
            same_snapshots(*final(self), *old(self)),
            same_modal(*final(self), *old(self)),
            same_search(*final(self), *old(self)),
    {
        if self.active_panel == 1 {
            if self.selected_process_index >= 10 {
                self.selected_process_index = self.selected_process_index - 10;
            } else {
                self.selected_process_index = 0;
            }
        } else if self.active_panel == 4 {
            self.settings_state.selected_category = 0;
        }
    }

    /// Moves the selection ten entries down in the Processes panel
    /// (clamped to the last entry), or jumps to the last settings
    /// category in the Settings panel.
    pub fn page_down(&mut self)
        requires
            old(self).inv(),
        ensures
            final(self).inv(),
            old(self).active_panel == 1 ==> {
                &&& final(self).selected_process_index as int == {
                    let max_index = if old(self).filtered_process_indices@.len() == 0 {
                        0int
                    } else {
                        old(self).filtered_process_indices@.len() - 1
                    };
                    if old(self).selected_process_index + 10 < max_index {
                        old(self).selected_process_index + 10
                    } else {
                        max_index
                    }
                }
                &&& final(self).settings_state == old(self).settings_state
            },
            old(self).active_panel == 4 ==> {
                &&& final(self).settings_state.selected_category == 4
                &&& same_settings_except_category(
                    final(self).settings_state,
                    old(self).settings_state,
                )
                &&& final(self).selected_process_index == old(self).selected_process_index
            },
            old(self).active_panel != 1 && old(self).active_panel != 4 ==> {
                &&& final(self).selected_process_index == old(self).selected_process_index
                &&& final(self).settings_state == old(self).settings_state
            },
            final(self).active_panel == old(self).active_panel,
            final(self).scroll_offset == old(self).scroll_offset,
            final(self).theme == old(self).theme,
            final(self).paused == old(self).paused,
            final(self).filtered_process_indices == old(self).filtered_process_indices,
            same_snapshots(*final(self), *old(self)),
            same_modal(*final(self), *old(self)),
            same_search(*final(self), *old(self)),
    {
        if self.active_panel == 1 {
            let max_index = if self.filtered_process_indices.len() == 0 {
                0
            } else {
                self.filtered_process_indices.len() - 1
            };
            let stepped = if self.selected_process_index <= usize::MAX - 10 {
                self.selected_process_index + 10
            } else {
                usize::MAX
            };
            self.selected_process_index = if stepped < max_index {
                stepped
            } else {
                max_index
            };
        } else if self.active_panel == 4 {
            self.settings_state.selected_category = 4;
        }
    }

    /// Moves the selection (and scroll) to the top of the Processes
    /// panel, or to the first settings category in the Settings panel.
    pub fn scroll_to_top(&mut self)
        requires
            old(self).inv(),
        ensures
            final(self).inv(),
            old(self).active_panel == 1 ==> {
                &&& final(self).selected_process_index == 0
                &&& final(self).scroll_offset == 0
                &&& final(self).settings_state == old(self).settings_state
            },
            old(self).active_panel == 4 ==> {
                &&& final(self).settings_state.selected_category == 0
                &&& same_settings_except_category(
                    final(self).settings_state,
                    old(self).settings_state,
                )
                &&& final(self).selected_process_index == old(self).selected_process_index
                &&& final(self).scroll_offset == old(self).scroll_offset
            },
            old(self).active_panel != 1 && old(self).active_panel != 4 ==> {
                &&& final(self).selected_process_index == old(self).selected_process_index
                &&& final(self).scroll_offset == old(self).scroll_offset
                &&& final(self).settings_state == old(self).settings_state
            },
            final(self).active_panel == old(self).active_panel,
            final(self).theme == old(self).theme,
            final(self).paused == old(self).paused,
            final(self).filtered_process_indices == old(self).filtered_process_indices,
            same_snapshots(*final(self), *old(self)),
            same_modal(*final(self), *old(self)),
            same_search(*final(self), *old(self)),
    {
        if self.active_panel == 1 {
            self.selected_process_index = 0;
            self.scroll_offset = 0;
        } else if self.active_panel == 4 {
            self.settings_state.selected_category = 0;
        }
    }

    /// Moves the selection to the last entry of the filtered view in the
    /// Processes panel, or to the last settings category in the Settings
    /// panel.
    pub fn scroll_to_bottom(&mut self)
        requires
            old(self).inv(),
        ensures
            final(self).inv(),
            old(self).active_panel == 1 ==> {
                &&& final(self).selected_process_index as int == if old(
                    self,
                ).filtered_process_indices@.len() == 0 {
                    0int
                } else {
                    old(self).filtered_process_indices@.len() - 1
                }
                &&& final(self).settings_state == old(self).settings_state
            },
            old(self).active_panel == 4 ==> {
                &&& final(self).settings_state.selected_category == 4
                &&& same_settings_except_category(
                    final(self).settings_state,
                    old(self).settings_state,
                )
                &&& final(self).selected_process_index == old(self).selected_process_index
            },
            old(self).active_panel != 1 && old(self).active_panel != 4 ==> {
                &&& final(self).selected_process_index == old(self).selected_process_index
                &&& final(self).settings_state == old(self).settings_state
            },
            final(self).active_panel == old(self).active_panel,
            final(self).scroll_offset == old(self).scroll_offset,
            final(self).theme == old(self).theme,
            final(self).paused == old(self).paused,
            final(self).filtered_process_indices == old(self).filtered_process_indices,
            same_snapshots(*final(self), *old(self)),
            same_modal(*final(self), *old(self)),
            same_search(*final(self), *old(self)),
    {
        if self.active_panel == 1 {
            self.selected_process_index = if self.filtered_process_indices.len() == 0 {
                0
            } else {
                self.filtered_process_indices.len() - 1
            };
        } else if self.active_panel == 4 {
            self.settings_state.selected_category = 4;
        }
    }

    /// Toggles the pause flag; while paused, snapshot acquisition is
    /// suspended but the dashboard remains interactive.
    pub fn toggle_pause(&mut self)
        requires
            old(self).inv(),
        ensures
            final(self).inv(),
            final(self).paused == !old(self).paused,
            final(self).active_panel == old(self).active_panel,
            final(self).scroll_offset == old(self).scroll_offset,
            final(self).theme == old(self).theme,
            final(self).settings_state == old(self).settings_state,
            same_snapshots(*final(self), *old(self)),
            same_modal(*final(self), *old(self)),
            same_search(*final(self), *old(self)),
            same_selection(*final(self), *old(self)),
    {
        self.paused = !self.paused;
    }

    /// Cycles the theme: Dark to Light to Dracula and back to Dark.
    pub fn toggle_theme(&mut self)
        requires
            old(self).inv(),
        ensures
            final(self).inv(),
            final(self).theme == next_theme(old(self).theme),
            final(self).active_panel == old(self).active_panel,
            final(self).scroll_offset == old(self).scroll_offset,
            final(self).paused == old(self).paused,
            final(self).settings_state == old(self).settings_state,
            same_snapshots(*final(self), *old(self)),
            same_modal(*final(self), *old(self)),
            same_search(*final(self), *old(self)),
            same_selection(*final(self), *old(self)),
    {
        self.theme = match self.theme {
            Theme::Dark => Theme::Light,
            Theme::Light => Theme::Dracula,
            Theme::Dracula => Theme::Dark,
        };
    }
}

/// The text of the process-detail modal.
pub open spec fn detail_message_spec(p: ProcessInfo) -> Seq<char> {
    "PID: "@ + utils::dec_str(p.pid as int) + "\nName: "@ + p.name@ + "\nUser: "@ + p.user@
        + "\nCPU: "@ + utils::dec_str(p.cpu_usage as int) + "%\nMemory: "@ + utils::dec_str(
        p.memory_usage as int,
    ) + "%\nDisk Read: "@ + utils::format_bytes_spec(p.disk_read as int) + "\nDisk Write: "@
        + utils::format_bytes_spec(p.disk_write as int) + "\nThreads: "@ + utils::dec_str(
        p.threads as int,
    ) + "\nStatus: "@ + p.status@ + "\nExecutable: "@ + p.exe_path@
}

/// The text of the kill-confirmation modal: it lists the target's
/// identity and asks for the confirm key.
pub open spec fn kill_confirm_message_spec(p: ProcessInfo) -> Seq<char> {
    "Kill process "@ + p.name@ + " (PID "@ + utils::dec_str(p.pid as int)
        + ")? Press y to confirm, Esc to cancel."@
}

/// The text shown after a successful suspend.
pub open spec fn suspend_ok_message_spec(name: Seq<char>, pid: int) -> Seq<char> {
    "Process "@ + name + " (PID "@ + utils::dec_str(pid) + ") suspended."@
}

/// The text shown after a failed suspend.
pub open spec fn suspend_err_message_spec(name: Seq<char>, pid: int, e: ActionError) -> Seq<
    char,
> {
    "Failed to suspend process "@ + name + " (PID "@ + utils::dec_str(pid) + "): "@
        + actions::error_message_spec(e)
}

/// The text shown after a successful resume.
pub open spec fn resume_ok_message_spec(name: Seq<char>, pid: int) -> Seq<char> {
    "Process "@ + name + " (PID "@ + utils::dec_str(pid) + ") resumed."@
}

/// The text shown after a failed resume.
pub open spec fn resume_err_message_spec(name: Seq<char>, pid: int, e: ActionError) -> Seq<
    char,
> {
    "Failed to resume process "@ + name + " (PID "@ + utils::dec_str(pid) + "): "@
        + actions::error_message_spec(e)
}

/// The text shown after a successful kill.
pub open spec fn kill_ok_message_spec(pid: int) -> Seq<char> {
    "Process "@ + utils::dec_str(pid) + " terminated."@
}

/// The text shown after a failed kill, the safety rejection included.
pub open spec fn kill_err_message_spec(pid: int, e: ActionError) -> Seq<char> {
    "Failed to kill process "@ + utils::dec_str(pid) + ": "@ + actions::error_message_spec(e)
}

/// The text shown after a successful export.
pub open spec fn export_ok_message_spec(path: Seq<char>) -> Seq<char> {
    "Exported to "@ + path
}

/// The text shown after a failed export.
pub open spec fn export_err_message_spec(err: Seq<char>) -> Seq<char> {
    "Export failed: "@ + err
}

/// Renders the process-detail modal text for one process.
fn detail_message(p: &ProcessInfo) -> (r: String)
    ensures
        r@ == detail_message_spec(*p),
{
    let mut s = String::from_str("PID: ");
    let pid_s = utils::u64_to_string(p.pid as u64);
    s.append(pid_s.as_str());
    s.append("\nName: ");
    s.append(p.name.as_str());
    s.append("\nUser: ");
    s.append(p.user.as_str());
    s.append("\nCPU: ");
    let cpu_s = utils::u64_to_string(p.cpu_usage);
    s.append(cpu_s.as_str());
    s.append("%\nMemory: ");
    let mem_s = utils::u64_to_string(p.memory_usage);
    s.append(mem_s.as_str());
    s.append("%\nDisk Read: ");
    let dr_s = utils::format_bytes(p.disk_read);
    s.append(dr_s.as_str());
    s.append("\nDisk Write: ");
    let dw_s = utils::format_bytes(p.disk_write);
    s.append(dw_s.as_str());
    s.append("\nThreads: ");
    let th_s = utils::u64_to_string(p.threads as u64);
    s.append(th_s.as_str());
    s.append("\nStatus: ");
    s.append(p.status.as_str());
    s.append("\nExecutable: ");
    s.append(p.exe_path.as_str());
    proof {
        assert(s@ =~= detail_message_spec(*p));
    }
    s
}

/// Renders the kill-confirmation modal text for one process.
fn kill_confirm_message(p: &ProcessInfo) -> (r: String)
    ensures
        r@ == kill_confirm_message_spec(*p),
{
    let mut s = String::from_str("Kill process ");
    s.append(p.name.as_str());
    s.append(" (PID ");
    let pid_s = utils::u64_to_string(p.pid as u64);
    s.append(pid_s.as_str());
    s.append(")? Press y to confirm, Esc to cancel.");
    proof {
        assert(s@ =~= kill_confirm_message_spec(*p));
    }
    s
}

impl Ui {
    /// The selection is valid and the panel is Processes: index of the
    /// selected process in the process snapshot, if any.
    pub open spec fn selection_target(self) -> Option<int> {
        if self.active_panel == 1 && self.filtered_process_indices@.len() > 0 {
            Some(self.filtered()[self.selected_process_index as int])
        } else {
            None
        }
    }

    /// Proves that a valid selection points into the process snapshot.
    proof fn lemma_selection_in_range(self)
        requires
            self.inv(),
            self.selection_target() is Some,
        ensures
            0 <= self.selection_target()->0 < self.process_data@.len(),
            self.selection_target()->0 == self.filtered_process_indices@[self.selected_process_index as int] as int,
    {
        view::lemma_filtered_view_sound(self.process_data@, self.search_query@);
        assert(self.filtered()[self.selected_process_index as int]
            == self.filtered_process_indices@[self.selected_process_index as int] as int);
    }

    /// Opens the detail modal for the selected process; without a valid
    /// selection in the Processes panel nothing changes.
    pub fn show_details(&mut self)
        requires
            old(self).inv(),
        ensures
            final(self).inv(),
            old(self).selection_target() matches Some(t) ==> {
                &&& final(self).show_modal
                &&& final(self).modal_type == ModalType::ProcessDetail
                &&& final(self).modal_message@ == detail_message_spec(old(self).process_data@[t])
                &&& final(self).pending_kill_pid == old(self).pending_kill_pid
                &&& same_snapshots(*final(self), *old(self))
                &&& same_search(*final(self), *old(self))
                &&& same_selection(*final(self), *old(self))
                &&& same_prefs(*final(self), *old(self))
            },
            old(self).selection_target() is None ==> *final(self) == *old(self),
    {
        if self.active_panel == 1 && self.filtered_process_indices.len() > 0 {
            proof {
                self.lemma_selection_in_range();
            }
            let idx = self.filtered_process_indices[self.selected_process_index];
            let msg = detail_message(&self.process_data[idx]);
            self.modal_message = msg;
            self.modal_type = ModalType::ProcessDetail;
            self.show_modal = true;
        }
    }

    /// Opens the kill-confirmation modal for the selected process and
    /// records it as the pending kill target; without a valid selection
    /// in the Processes panel nothing changes. The kill itself only
    /// happens on confirmation.
    pub fn kill_selected_process(&mut self)
        requires
            old(self).inv(),
        ensures
            final(self).inv(),
            old(self).selection_target() matches Some(t) ==> {
                &&& final(self).show_modal
                &&& final(self).modal_type == ModalType::KillConfirm
                &&& final(self).modal_message@ == kill_confirm_message_spec(
                    old(self).process_data@[t],
                )
                &&& final(self).pending_kill_pid == Some(old(self).process_data@[t].pid)
                &&& same_snapshots(*final(self), *old(self))
                &&& same_search(*final(self), *old(self))
                &&& same_selection(*final(self), *old(self))
                &&& same_prefs(*final(self), *old(self))
            },
            old(self).selection_target() is None ==> *final(self) == *old(self),
    {
        if self.active_panel == 1 && self.filtered_process_indices.len() > 0 {
            proof {
                self.lemma_selection_in_range();
            }
            let idx = self.filtered_process_indices[self.selected_process_index];
            let msg = kill_confirm_message(&self.process_data[idx]);
            self.pending_kill_pid = Some(self.process_data[idx].pid);
            self.modal_message = msg;
            self.modal_type = ModalType::KillConfirm;
            self.show_modal = true;
        }
    }

    /// Records the outcome of a suspend action in the detail modal: a
    /// confirmation on success, the error's description on failure.
    pub fn report_suspend_result(&mut self, name: &str, pid: u32, outcome: Result<(), ActionError>)
        requires
            old(self).inv(),
        ensures
            final(self).inv(),
            final(self).show_modal,
            final(self).modal_type == ModalType::ProcessDetail,
            outcome is Ok ==> final(self).modal_message@ == suspend_ok_message_spec(
                name@,
                pid as int,
            ),
            outcome matches Err(e) ==> final(self).modal_message@ == suspend_err_message_spec(
                name@,
                pid as int,
                e,
            ),
            final(self).pending_kill_pid == old(self).pending_kill_pid,
            same_snapshots(*final(self), *old(self)),
            same_search(*final(self), *old(self)),
            same_selection(*final(self), *old(self)),
            same_prefs(*final(self), *old(self)),
    {
        let mut s: String;
        match outcome {
            Ok(_) => {
                s = String::from_str("Process ");
                s.append(name);
                s.append(" (PID ");
                let pid_s = utils::u64_to_string(pid as u64);
                s.append(pid_s.as_str());
                s.append(") suspended.");
                proof {
                    assert(s@ =~= suspend_ok_message_spec(name@, pid as int));
                }
            },
            Err(e) => {
                s = String::from_str("Failed to suspend process ");
                s.append(name);
                s.append(" (PID ");
                let pid_s = utils::u64_to_string(pid as u64);
                s.append(pid_s.as_str());
                s.append("): ");
                let err_s = e.message();
                s.append(err_s.as_str());
                proof {
                    assert(s@ =~= suspend_err_message_spec(name@, pid as int, e));
                }
            },
        }
        self.modal_message = s;
        self.modal_type = ModalType::ProcessDetail;
        self.show_modal = true;
    }

    /// Records the outcome of a resume action in the detail modal.
    pub fn report_resume_result(&mut self, name: &str, pid: u32, outcome: Result<(), ActionError>)
        requires
            old(self).inv(),
        ensures
            final(self).inv(),
            final(self).show_modal,
            final(self).modal_type == ModalType::ProcessDetail,
            outcome is Ok ==> final(self).modal_message@ == resume_ok_message_spec(
                name@,
                pid as int,
            ),
            outcome matches Err(e) ==> final(self).modal_message@ == resume_err_message_spec(
                name@,
                pid as int,
                e,
            ),
            final(self).pending_kill_pid == old(self).pending_kill_pid,
            same_snapshots(*final(self), *old(self)),
            same_search(*final(self), *old(self)),
            same_selection(*final(self), *old(self)),
            same_prefs(*final(self), *old(self)),
    {
        let mut s: String;
        match outcome {
            Ok(_) => {
                s = String::from_str("Process ");
                s.append(name);
                s.append(" (PID ");
                let pid_s = utils::u64_to_string(pid as u64);
                s.append(pid_s.as_str());
                s.append(") resumed.");
                proof {
                    assert(s@ =~= resume_ok_message_spec(name@, pid as int));
                }
            },
            Err(e) => {
                s = String::from_str("Failed to resume process ");
                s.append(name);
                s.append(" (PID ");
                let pid_s = utils::u64_to_string(pid as u64);
                s.append(pid_s.as_str());
                s.append("): ");
                let err_s = e.message();
                s.append(err_s.as_str());
                proof {
                    assert(s@ =~= resume_err_message_spec(name@, pid as int, e));
                }
            },
        }
        self.modal_message = s;
        self.modal_type = ModalType::ProcessDetail;
        self.show_modal = true;
    }

    /// Records the outcome of a kill action in the detail modal.
    pub fn report_kill_result(&mut self, pid: u32, outcome: Result<(), ActionError>)
        requires
            old(self).inv(),
        ensures
            final(self).inv(),
            final(self).show_modal,
            final(self).modal_type == ModalType::ProcessDetail,
            outcome is Ok ==> final(self).modal_message@ == kill_ok_message_spec(pid as int),
            outcome matches Err(e) ==> final(self).modal_message@ == kill_err_message_spec(
                pid as int,
                e,
            ),
            final(self).pending_kill_pid == old(self).pending_kill_pid,
            same_snapshots(*final(self), *old(self)),
            same_search(*final(self), *old(self)),
            same_selection(*final(self), *old(self)),
            same_prefs(*final(self), *old(self)),
    {
        let mut s: String;
        match outcome {
            Ok(_) => {
                s = String::from_str("Process ");
                let pid_s = utils::u64_to_string(pid as u64);
                s.append(pid_s.as_str());
                s.append(" terminated.");
                proof {
                    assert(s@ =~= kill_ok_message_spec(pid as int));
                }
            },
            Err(e) => {
                s = String::from_str("Failed to kill process ");
                let pid_s = utils::u64_to_string(pid as u64);
                s.append(pid_s.as_str());
                s.append(": ");
                let err_s = e.message();
                s.append(err_s.as_str());
                proof {
                    assert(s@ =~= kill_err_message_spec(pid as int, e));
                }
            },
        }
        self.modal_message = s;
        self.modal_type = ModalType::ProcessDetail;
        self.show_modal = true;
    }

    /// Records the outcome of an export in the detail modal: the
    /// artifact's path on success, the cause on failure.
    pub fn report_export_result(&mut self, outcome: Result<String, String>)
        requires
            old(self).inv(),
        ensures
            final(self).inv(),
            final(self).show_modal,
            final(self).modal_type == ModalType::ProcessDetail,
            outcome matches Ok(p) ==> final(self).modal_message@ == export_ok_message_spec(p@),
            outcome matches Err(e) ==> final(self).modal_message@ == export_err_message_spec(e@),
            final(self).pending_kill_pid == old(self).pending_kill_pid,
            same_snapshots(*final(self), *old(self)),
            same_search(*final(self), *old(self)),
            same_selection(*final(self), *old(self)),
            same_prefs(*final(self), *old(self)),
    {
        let mut s: String;
        match &outcome {
            Ok(p) => {
                s = String::from_str("Exported to ");
                s.append(p.as_str());
                proof {
                    assert(s@ =~= export_ok_message_spec(outcome->Ok_0@));
                }
            },
            Err(e) => {
                s = String::from_str("Export failed: ");
                s.append(e.as_str());
                proof {
                    assert(s@ =~= export_err_message_spec(outcome->Err_0@));
                }
            },
        }
        self.modal_message = s;
        self.modal_type = ModalType::ProcessDetail;
        self.show_modal = true;
    }

    /// Suspends the selected process through the process manager and
    /// reports the outcome in the detail modal; without a valid
    /// selection in the Processes panel nothing changes and the manager
    /// is not consulted.
    pub fn suspend_selected_process<M: ProcessManager>(&mut self, mgr: &M)
        requires
            old(self).inv(),
        ensures
            final(self).inv(),
            old(self).selection_target() matches Some(t) ==> {
                &&& final(self).show_modal
                &&& final(self).modal_type == ModalType::ProcessDetail
                &&& (final(self).modal_message@ == suspend_ok_message_spec(
                    old(self).process_data@[t].name@,
                    old(self).process_data@[t].pid as int,
                ) || exists|e: ActionError|
                    final(self).modal_message@ == suspend_err_message_spec(
                        old(self).process_data@[t].name@,
                        old(self).process_data@[t].pid as int,
                        e,
                    ))
                &&& final(self).pending_kill_pid == old(self).pending_kill_pid
                &&& same_snapshots(*final(self), *old(self))
                &&& same_search(*final(self), *old(self))
                &&& same_selection(*final(self), *old(self))
                &&& same_prefs(*final(self), *old(self))
            },
            old(self).selection_target() is None ==> *final(self) == *old(self),
    {
        if self.active_panel == 1 && self.filtered_process_indices.len() > 0 {
            proof {
                self.lemma_selection_in_range();
            }
            let idx = self.filtered_process_indices[self.selected_process_index];
            let pid = self.process_data[idx].pid;
            let name = self.process_data[idx].name.clone();
            let outcome = mgr.suspend_process(pid);
            self.report_suspend_result(name.as_str(), pid, outcome);
            proof {
                if outcome is Err {
                    let e = outcome->Err_0;
                    assert(self.modal_message@ == suspend_err_message_spec(
                        name@,
                        pid as int,
                        e,
                    ));
                }
            }
        }
    }

    /// Resumes the selected process through the process manager and
    /// reports the outcome in the detail modal; without a valid
    /// selection in the Processes panel nothing changes and the manager
    /// is not consulted.
    pub fn resume_selected_process<M: ProcessManager>(&mut self, mgr: &M)
        requires
            old(self).inv(),
        ensures
            final(self).inv(),
            old(self).selection_target() matches Some(t) ==> {
                &&& final(self).show_modal
                &&& final(self).modal_type == ModalType::ProcessDetail
                &&& (final(self).modal_message@ == resume_ok_message_spec(
                    old(self).process_data@[t].name@,
                    old(self).process_data@[t].pid as int,
                ) || exists|e: ActionError|
                    final(self).modal_message@ == resume_err_message_spec(
                        old(self).process_data@[t].name@,
                        old(self).process_data@[t].pid as int,
                        e,
                    ))
                &&& final(self).pending_kill_pid == old(self).pending_kill_pid
                &&& same_snapshots(*final(self), *old(self))
                &&& same_search(*final(self), *old(self))
                &&& same_selection(*final(self), *old(self))
                &&& same_prefs(*final(self), *old(self))
            },
            old(self).selection_target() is None ==> *final(self) == *old(self),
    {
        if self.active_panel == 1 && self.filtered_process_indices.len() > 0 {
            proof {
                self.lemma_selection_in_range();
            }
            let idx = self.filtered_process_indices[self.selected_process_index];
            let pid = self.process_data[idx].pid;
            let name = self.process_data[idx].name.clone();
            let outcome = mgr.resume_process(pid);
            self.report_resume_result(name.as_str(), pid, outcome);
            proof {
                if outcome is Err {
                    let e = outcome->Err_0;
                    assert(self.modal_message@ == resume_err_message_spec(name@, pid as int, e));
                }
            }
        }
    }

    /// Confirms a pending kill: the request runs through the dispatch
    /// guard (no override), so a system-process target is rejected
    /// before the provider is reached; the outcome lands in the detail
    /// modal and the pending target is cleared. Without a pending target
    /// nothing changes.
    pub fn confirm_kill<M: ProcessManager>(&mut self, mgr: &M)
        requires
            old(self).inv(),
        ensures
            final(self).inv(),
            old(self).pending_kill_pid is None ==> *final(self) == *old(self),
            old(self).pending_kill_pid matches Some(pid) ==> {
                &&& final(self).pending_kill_pid is None
                &&& final(self).show_modal
                &&& final(self).modal_type == ModalType::ProcessDetail
                &&& (pid <= 1 ==> final(self).modal_message@ == kill_err_message_spec(
                    pid as int,
                    ActionError::SystemProcess,
                ))
                &&& (final(self).modal_message@ == kill_ok_message_spec(pid as int) || exists|
                    e: ActionError,
                |
                    final(self).modal_message@ == kill_err_message_spec(pid as int, e))
                &&& same_snapshots(*final(self), *old(self))
                &&& same_search(*final(self), *old(self))
                &&& same_selection(*final(self), *old(self))
                &&& same_prefs(*final(self), *old(self))
            },
    {
        if let Some(pid) = self.pending_kill_pid {
            let outcome = actions::dispatch_kill(mgr, pid, "SIGKILL", false);
            self.report_kill_result(pid, outcome);
            self.pending_kill_pid = None;
            proof {
                if outcome is Err {
                    let e = outcome->Err_0;
                    assert(self.modal_message@ == kill_err_message_spec(pid as int, e));
                }
            }
        }
    }

    /// Enters search mode in the Processes panel, clearing any previous
    /// query (so the view shows every process); outside the Processes
    /// panel nothing changes and search stays inactive.
    pub fn start_search(&mut self)
        requires
            old(self).inv(),
        ensures
            final(self).inv(),
            old(self).active_panel == 1 ==> {
                &&& final(self).search_mode
                &&& final(self).search_query@ == Seq::<char>::empty()
                &&& final(self).filtered() == view::filtered_view(
                    old(self).process_data@,
                    Seq::<char>::empty(),
                )
                &&& final(self).selected_process_index == view::clamped_cursor(
                    old(self).selected_process_index as int,
                    final(self).filtered_process_indices@.len() as int,
                )
                &&& same_snapshots(*final(self), *old(self))
                &&& same_modal(*final(self), *old(self))
                &&& same_prefs(*final(self), *old(self))
            },
            old(self).active_panel != 1 ==> *final(self) == *old(self),
    {
        if self.active_panel == 1 {
            self.search_mode = true;
            self.search_query = String::new();
            self.update_filtered_processes();
        }
    }

    /// Escape: leaves search mode (clearing the query, so the view again
    /// shows every process); or, when search is inactive, closes any
    /// modal and clears the pending kill target.
    pub fn cancel_action(&mut self)
        requires
            old(self).inv(),
        ensures
            final(self).inv(),
            old(self).search_mode ==> {
                &&& !final(self).search_mode
                &&& final(self).search_query@ == Seq::<char>::empty()
                &&& final(self).filtered() == view::filtered_view(
                    old(self).process_data@,
                    Seq::<char>::empty(),
                )
                &&& final(self).selected_process_index == view::clamped_cursor(
                    old(self).selected_process_index as int,
                    final(self).filtered_process_indices@.len() as int,
                )
                &&& same_snapshots(*final(self), *old(self))
                &&& same_modal(*final(self), *old(self))
                &&& same_prefs(*final(self), *old(self))
            },
            !old(self).search_mode ==> {
                &&& !final(self).show_modal
                &&& final(self).modal_type == ModalType::Inactive
                &&& final(self).pending_kill_pid is None
                &&& final(self).modal_message == old(self).modal_message
                &&& same_snapshots(*final(self), *old(self))
                &&& same_search(*final(self), *old(self))
                &&& same_selection(*final(self), *old(self))
                &&& same_prefs(*final(self), *old(self))
            },
    {
        if self.search_mode {
            self.search_mode = false;
            self.search_query = String::new();
            self.update_filtered_processes();
        } else {
            self.show_modal = false;
            self.modal_type = ModalType::Inactive;
            self.pending_kill_pid = None;
        }
    }

    /// Appends a character to the search query, recomputes the filtered
    /// view against the extended query, and resets the cursor to the
    /// top.
    pub fn search_input(&mut self, c: char)
        requires
            old(self).inv(),
        ensures
            final(self).inv(),
            final(self).search_query@ == old(self).search_query@.push(c),
            final(self).filtered() == view::filtered_view(
                old(self).process_data@,
                old(self).search_query@.push(c),
            ),
            final(self).selected_process_index == 0,
            final(self).search_mode == old(self).search_mode,
            same_snapshots(*final(self), *old(self)),
            same_modal(*final(self), *old(self)),
            same_prefs(*final(self), *old(self)),
    {
        utils::push_char(&mut self.search_query, c);
        self.update_filtered_processes();
        self.selected_process_index = 0;
    }

    /// Removes the last character of the search query (a no-op on an
    /// empty query), recomputes the filtered view, and clamps the
    /// cursor.
    pub fn search_backspace(&mut self)
        requires
            old(self).inv(),
        ensures
            final(self).inv(),
            old(self).search_query@.len() > 0 ==> final(self).search_query@ == old(
                self,
            ).search_query@.drop_last(),
            old(self).search_query@.len() == 0 ==> final(self).search_query@ == old(
                self,
            ).search_query@,
            final(self).filtered() == view::filtered_view(
                old(self).process_data@,
                final(self).search_query@,
            ),
            final(self).selected_process_index == view::clamped_cursor(
                old(self).selected_process_index as int,
                final(self).filtered_process_indices@.len() as int,
            ),
            final(self).search_mode == old(self).search_mode,
            same_snapshots(*final(self), *old(self)),
            same_modal(*final(self), *old(self)),
            same_prefs(*final(self), *old(self)),
    {
        let _ = utils::pop_char(&mut self.search_query);
        self.update_filtered_processes();
    }

    /// Whether any modal overlay is currently shown.
    pub fn is_modal_open(&self) -> (r: bool)
        ensures
            r == self.show_modal,
    {
        self.show_modal
    }

    /// Whether the kill-confirmation modal is currently shown.
    pub fn is_kill_confirm_modal(&self) -> (r: bool)
        ensures
            r == (self.show_modal && self.modal_type == ModalType::KillConfirm),
    {
        self.show_modal && self.modal_type == ModalType::KillConfirm
    }

    /// Whether search mode is active.
    pub fn is_search_mode(&self) -> (r: bool)
        ensures
            r == self.search_mode,
    {
        self.search_mode
    }

    /// Whether the Settings panel is active.
    pub fn is_in_settings_panel(&self) -> (r: bool)
        ensures
            r == (self.active_panel == 4),
    {
        self.active_panel == 4
    }
}

} // verus!
