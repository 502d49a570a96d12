//! The LCD display-configuration editor: a list of configured hardware
//! displays, a cursor over them plus one "add new" row, and an editing
//! mode that cycles one field at a time. Rendering and the terminal's
//! event type stay outside; keys arrive here already decoded.

use vstd::prelude::*;

verus! {

/// The background color of one configured display.
#[derive(Clone, Copy, Debug, PartialEq, Eq, Structural)]
pub enum LcdColor {
    Off,
    White,
    Red,
    Green,
    Yellow,
    Blue,
    Magenta,
    Cyan,
}

/// What one line of a display shows.
#[derive(Clone, Copy, Debug, PartialEq, Eq, Structural)]
pub enum LcdLineType {
    Empty,
    OrganName,
    SystemStatus,
    LastPreset,
    LastStopChange,
    MidiLog,
    Gain,
    ReverbMix,
    MidiPlayerStatus,
}

/// One configured hardware display.
#[derive(Clone, Copy, Debug, PartialEq, Eq, Structural)]
pub struct LcdDisplayConfig {
    pub id: u8,
    pub background_color: LcdColor,
    pub line1: LcdLineType,
    pub line2: LcdLineType,
}

/// A key press on the configuration screen, already decoded.
#[derive(Clone, Copy, Debug, PartialEq, Eq, Structural)]
pub enum LcdKey {
    /// Leave edit mode, or leave the screen.
    Back,
    Up,
    Down,
    Left,
    Right,
    /// Enter or confirm: add a display on the "add new" row, otherwise
    /// enter or leave edit mode.
    Confirm,
    /// Remove the selected display.
    Delete,
}

/// What the screen's loop should do after a key was handled.
#[derive(Clone, Copy, Debug, PartialEq, Eq, Structural)]
pub enum LcdConfigAction {
    /// No navigation change; stay on this screen.
    Stay,
    /// Return to the previous menu.
    Back,
}

/// The editor's own state: the cursor row, and the field under edit if
/// edit mode is on. Field indices: 0 = id, 1 = color, 2 = line one,
/// 3 = line two.
pub struct TuiLcdState {
    pub selected: usize,
    pub editing_field: Option<(usize, usize)>,
}

/// The position of a color in the cycling order.
pub open spec fn color_index(c: LcdColor) -> int {
    match c {
        LcdColor::Off => 0,
        LcdColor::White => 1,
        LcdColor::Red => 2,
        LcdColor::Green => 3,
        LcdColor::Yellow => 4,
        LcdColor::Blue => 5,
        LcdColor::Magenta => 6,
        LcdColor::Cyan => 7,
    }
}

/// The color at a position of the cycling order.
pub open spec fn color_at(i: int) -> LcdColor {
    if i == 0 {
        LcdColor::Off
    } else if i == 1 {
        LcdColor::White
    } else if i == 2 {
        LcdColor::Red
    } else if i == 3 {
        LcdColor::Green
    } else if i == 4 {
        LcdColor::Yellow
    } else if i == 5 {
        LcdColor::Blue
    } else if i == 6 {
        LcdColor::Magenta
    } else {
        LcdColor::Cyan
    }
}

/// The position of a line type in the cycling order.
pub open spec fn line_type_index(t: LcdLineType) -> int {
    match t {
        LcdLineType::Empty => 0,
        LcdLineType::OrganName => 1,
        LcdLineType::SystemStatus => 2,
        LcdLineType::LastPreset => 3,
        LcdLineType::LastStopChange => 4,
        LcdLineType::MidiLog => 5,
        LcdLineType::Gain => 6,
        LcdLineType::ReverbMix => 7,
        LcdLineType::MidiPlayerStatus => 8,
    }
}

/// The line type at a position of the cycling order.
pub open spec fn line_type_at(i: int) -> LcdLineType {
    if i == 0 {
        LcdLineType::Empty
    } else if i == 1 {
        LcdLineType::OrganName
    } else if i == 2 {
        LcdLineType::SystemStatus
    } else if i == 3 {
        LcdLineType::LastPreset
    } else if i == 4 {
        LcdLineType::LastStopChange
    } else if i == 5 {
        LcdLineType::MidiLog
    } else if i == 6 {
        LcdLineType::Gain
    } else if i == 7 {
        LcdLineType::ReverbMix
    } else {
        LcdLineType::MidiPlayerStatus
    }
}

/// Steps a color one place through the cycle, either way around.
pub fn cycle_color(c: &LcdColor, forward: bool) -> (r: LcdColor)
    ensures
        color_index(r) == (color_index(*c) + (if forward {
            1int
        } else {
            7int
        })) % 8,
{
    match (c, forward) {
        (LcdColor::Off, true) => LcdColor::White,
        (LcdColor::White, true) => LcdColor::Red,
        (LcdColor::Red, true) => LcdColor::Green,
        (LcdColor::Green, true) => LcdColor::Yellow,
        (LcdColor::Yellow, true) => LcdColor::Blue,
        (LcdColor::Blue, true) => LcdColor::Magenta,
        (LcdColor::Magenta, true) => LcdColor::Cyan,
        (LcdColor::Cyan, true) => LcdColor::Off,
        (LcdColor::Off, false) => LcdColor::Cyan,
        (LcdColor::White, false) => LcdColor::Off,
        (LcdColor::Red, false) => LcdColor::White,
        (LcdColor::Green, false) => LcdColor::Red,
        (LcdColor::Yellow, false) => LcdColor::Green,
        (LcdColor::Blue, false) => LcdColor::Yellow,
        (LcdColor::Magenta, false) => LcdColor::Blue,
        (LcdColor::Cyan, false) => LcdColor::Magenta,
    }
}

/// Steps a line type one place through the cycle, either way around.
pub fn cycle_line_type(t: &LcdLineType, forward: bool) -> (r: LcdLineType)
    ensures
        line_type_index(r) == (line_type_index(*t) + (if forward {
            1int
        } else {
            8int
        })) % 9,
{
    match (t, forward) {
        (LcdLineType::Empty, true) => LcdLineType::OrganName,
        (LcdLineType::OrganName, true) => LcdLineType::SystemStatus,
        (LcdLineType::SystemStatus, true) => LcdLineType::LastPreset,
        (LcdLineType::LastPreset, true) => LcdLineType::LastStopChange,
        (LcdLineType::LastStopChange, true) => LcdLineType::MidiLog,
        (LcdLineType::MidiLog, true) => LcdLineType::Gain,
        (LcdLineType::Gain, true) => LcdLineType::ReverbMix,
        (LcdLineType::ReverbMix, true) => LcdLineType::MidiPlayerStatus,
        (LcdLineType::MidiPlayerStatus, true) => LcdLineType::Empty,
        (LcdLineType::Empty, false) => LcdLineType::MidiPlayerStatus,
        (LcdLineType::OrganName, false) => LcdLineType::Empty,
        (LcdLineType::SystemStatus, false) => LcdLineType::OrganName,
        (LcdLineType::LastPreset, false) => LcdLineType::SystemStatus,
        (LcdLineType::LastStopChange, false) => LcdLineType::LastPreset,
        (LcdLineType::MidiLog, false) => LcdLineType::LastStopChange,
        (LcdLineType::Gain, false) => LcdLineType::MidiLog,
        (LcdLineType::ReverbMix, false) => LcdLineType::Gain,
        (LcdLineType::MidiPlayerStatus, false) => LcdLineType::ReverbMix,
    }
}

/// One field edit applied to a display: the id nudged within 1..=127,
/// or one of the cycling fields stepped. A field index past the last
/// column edits nothing.
pub open spec fn edited_display(d: LcdDisplayConfig, col: int, forward: bool) -> LcdDisplayConfig {
    if col == 0 {
        let nudged = d.id + (if forward {
            1int
        } else {
            -1int
        });
        let clamped = if nudged < 1 {
            1int
        } else if nudged > 127 {
            127int
        } else {
            nudged
        };
        LcdDisplayConfig { id: clamped as u8, ..d }
    } else if col == 1 {
        LcdDisplayConfig {
            background_color: color_at((color_index(d.background_color) + (if forward {
                1int
            } else {
                7int
            })) % 8),
            ..d
        }
    } else if col == 2 {
        LcdDisplayConfig {
            line1: line_type_at((line_type_index(d.line1) + (if forward {
                1int
            } else {
                8int
            })) % 9),
            ..d
        }
    } else if col == 3 {
        LcdDisplayConfig {
            line2: line_type_at((line_type_index(d.line2) + (if forward {
                1int
            } else {
                8int
            })) % 9),
            ..d
        }
    } else {
        d
    }
}

impl TuiLcdState {
    /// A cursor on the first row, not editing.
    pub fn new() -> (s: TuiLcdState)
        ensures
            s.selected == 0,
            s.editing_field is None,
    {
        TuiLcdState { selected: 0, editing_field: None }
    }
}

/// Applies one up or down step while a field is under edit: the field
/// of the edited row moves one place, forward on up, backward on down.
/// A row index beyond the list, or a field index past the last column,
/// leaves everything unchanged.
pub fn handle_field_edit(
    state: &mut TuiLcdState,
    lcd_displays: &mut Vec<LcdDisplayConfig>,
    forward: bool,
)
    ensures
        final(state).selected == old(state).selected,
        final(state).editing_field == old(state).editing_field,
        (match old(state).editing_field {
            Some((row, col)) => {
                if row < old(lcd_displays)@.len() && col < 4 {
                    final(lcd_displays)@ == old(lcd_displays)@.update(
                        row as int,
                        edited_display(old(lcd_displays)@[row as int], col as int, forward),
                    )
                } else {
                    final(lcd_displays)@ == old(lcd_displays)@
                }
            },
            None => final(lcd_displays)@ == old(lcd_displays)@,
        }),
{
    let (row, col) = match state.editing_field {
        Some(rc) => rc,
        None => {
            return ;
        },
    };
    if row >= lcd_displays.len() {
        return ;
    }
    if col >= 4 {
        return ;
    }
    let current = lcd_displays[row];
    let edited = match col {
        0 => {
            // nudge the id, clamped to the valid hardware range
            let nudged: i16 = current.id as i16 + (if forward {
                1i16
            } else {
                -1i16
            });
            let clamped: i16 = if nudged < 1 {
                1
            } else if nudged > 127 {
                127
            } else {
                nudged
            };
            LcdDisplayConfig { id: clamped as u8, ..current }
        },
        1 => LcdDisplayConfig {
            background_color: cycle_color(&current.background_color, forward),
            ..current
        },
        2 => LcdDisplayConfig { line1: cycle_line_type(&current.line1, forward), ..current },
        _ => LcdDisplayConfig { line2: cycle_line_type(&current.line2, forward), ..current },
    };
    lcd_displays.set(row, edited);
    proof {
        let spec_edit = edited_display(old(lcd_displays)@[row as int], col as int, forward);
        if col == 1 {
            assert(color_at(color_index(spec_edit.background_color)) == spec_edit.background_color);
            assert(edited == spec_edit);
        } else if col == 2 || col >= 3 {
            assert(edited == spec_edit);
        }
    }
}

/// Handles one key on the configuration screen, exactly as its loop
/// does: navigation wraps over the rows (the list plus the "add new"
/// row) or, in edit mode, steps the edited field or moves between
/// fields; confirm adds a display or toggles edit mode; delete removes
/// the selected display; back leaves edit mode first and the screen
/// second.
pub fn handle_input(
    key: LcdKey,
    state: &mut TuiLcdState,
    lcd_displays: &mut Vec<LcdDisplayConfig>,
) -> (r: LcdConfigAction)
    requires
        old(lcd_displays)@.len() < usize::MAX,
        old(state).selected <= old(lcd_displays)@.len(),
        (match old(state).editing_field {
            Some((_, c)) => c < 4,
            None => true,
        }),
    ensures
        final(state).selected <= final(lcd_displays)@.len(),
        (match final(state).editing_field {
            Some((_, c)) => c < 4,
            None => true,
        }),
        key is Back ==> {
            &&& final(lcd_displays)@ == old(lcd_displays)@
            &&& (old(state).editing_field is Some ==> r == LcdConfigAction::Stay && final(state).editing_field is None)
            &&& (old(state).editing_field is None ==> r == LcdConfigAction::Back)
        },
        !(key is Back) ==> r == LcdConfigAction::Stay,
        key is Left || key is Right ==> {
            &&& final(lcd_displays)@ == old(lcd_displays)@
            &&& final(state).selected == old(state).selected
            &&& (match old(state).editing_field {
                Some((row, col)) => final(state).editing_field == Some(
                    (
                        row,
                        if key is Left {
                            if col == 0 {
                                3usize
                            } else {
                                (col - 1) as usize
                            }
                        } else {
                            ((col + 1) as int % 4) as usize
                        },
                    ),
                ),
                None => final(state).editing_field is None,
            })
        },
        (key is Up || key is Down) && old(state).editing_field is Some ==> {
            &&& final(state).selected == old(state).selected
            &&& final(state).editing_field == old(state).editing_field
            &&& (match old(state).editing_field {
                Some((row, col)) => {
                    if row < old(lcd_displays)@.len() {
                        final(lcd_displays)@ == old(lcd_displays)@.update(
                            row as int,
                            edited_display(old(lcd_displays)@[row as int], col as int, key is Up),
                        )
                    } else {
                        final(lcd_displays)@ == old(lcd_displays)@
                    }
                },
                None => true,
            })
        },
        key is Up && old(state).editing_field is None ==> {
            &&& final(lcd_displays)@ == old(lcd_displays)@
            &&& final(state).selected == (if old(state).selected == 0 {
                old(lcd_displays)@.len() as int
            } else {
                old(state).selected - 1
            })
        },
        key is Down && old(state).editing_field is None ==> {
            &&& final(lcd_displays)@ == old(lcd_displays)@
            &&& final(state).selected == (old(state).selected + 1) % (old(lcd_displays)@.len()
                + 1) as int
        },
        key is Confirm && old(state).selected == old(lcd_displays)@.len() ==> {
            &&& final(lcd_displays)@ == old(lcd_displays)@.push(
                LcdDisplayConfig {
                    id: ((old(lcd_displays)@.len() as int % 127) + 1) as u8,
                    background_color: LcdColor::White,
                    line1: LcdLineType::OrganName,
                    line2: LcdLineType::SystemStatus,
                },
            )
            &&& final(state).selected == old(state).selected
        },
        key is Confirm && old(state).selected < old(lcd_displays)@.len() ==> {
            &&& final(lcd_displays)@ == old(lcd_displays)@
            &&& (old(state).editing_field is Some ==> final(state).editing_field is None)
            &&& (old(state).editing_field is None ==> final(state).editing_field == Some(
                (old(state).selected, 0usize),
            ))
        },
        key is Delete ==> final(state).editing_field == old(state).editing_field,
        key is Delete && old(state).editing_field is None && old(state).selected < old(lcd_displays)@.len() ==> {
            &&& final(lcd_displays)@ == old(lcd_displays)@.remove(old(state).selected as int)
            &&& final(state).selected == (if old(state).selected + 1 == old(lcd_displays)@.len()
                && old(lcd_displays)@.len() > 1 {
                old(lcd_displays)@.len() - 2
            } else {
                old(state).selected as int
            })
        },
        key is Delete && !(old(state).editing_field is None && old(state).selected < old(lcd_displays)@.len()) ==> final(lcd_displays)@ == old(lcd_displays)@ && final(state).selected == old(state).selected,
{
    let display_count = lcd_displays.len();
    let total_rows = display_count + 1;
    match key {
        LcdKey::Back => {
            if state.editing_field.is_some() {
                state.editing_field = None;
                return LcdConfigAction::Stay;
            }
            LcdConfigAction::Back
        },
        LcdKey::Up => {
            if state.editing_field.is_none() {
                let i = state.selected;
                let next = if i == 0 {
                    total_rows - 1
                } else {
                    i - 1
                };
                state.selected = next;
            } else {
                handle_field_edit(state, lcd_displays, true);
            }
            LcdConfigAction::Stay
        },
        LcdKey::Down => {
            if state.editing_field.is_none() {
                let next = (state.selected + 1) % total_rows;
                state.selected = next;
            } else {
                handle_field_edit(state, lcd_displays, false);
            }
            LcdConfigAction::Stay
        },
        LcdKey::Left => {
            if let Some((row_idx, col_idx)) = state.editing_field {
                let new_col = if col_idx == 0 {
                    3
                } else {
                    col_idx - 1
                };
                state.editing_field = Some((row_idx, new_col));
            }
            LcdConfigAction::Stay
        },
        LcdKey::Right => {
            if let Some((row_idx, col_idx)) = state.editing_field {
                let new_col = (col_idx + 1) % 4;
                state.editing_field = Some((row_idx, new_col));
            }
            LcdConfigAction::Stay
        },
        LcdKey::Confirm => {
            let idx = state.selected;
            if idx == display_count {
                // the "add new" row: append a display with the next id
                let next_id: u8 = ((display_count % 127) as u8) + 1;
                lcd_displays.push(
                    LcdDisplayConfig {
                        id: next_id,
                        background_color: LcdColor::White,
                        line1: LcdLineType::OrganName,
                        line2: LcdLineType::SystemStatus,
                    },
                );
            } else {
                if state.editing_field.is_some() {
                    // confirm the edits and leave edit mode
                    state.editing_field = None;
                } else {
                    // enter edit mode on the id field
                    state.editing_field = Some((idx, 0));
                }
            }
            LcdConfigAction::Stay
        },
        LcdKey::Delete => {
            if state.editing_field.is_none() {
                let idx = state.selected;
                if idx < display_count {
                    lcd_displays.remove(idx);
                    // keep the cursor on a row when the tail was removed
                    if idx >= lcd_displays.len() && lcd_displays.len() > 0 {
                        state.selected = lcd_displays.len() - 1;
                    }
                }
            }
            LcdConfigAction::Stay
        },
    }
}

} // verus!
