//! The operator's selection: a cursor over the boot options, and the states
//! of the menu around it.

use crate::container::SectionRange;
use crate::scanner::BootOption;
use crate::text::to_vec;
use vstd::prelude::*;

verus! {

/// The key code of the volume-up key: previous option.
pub const KEY_VOLUMEUP: u16 = 0x115;

/// The key code of the volume-down key: next option.
pub const KEY_VOLUMEDOWN: u16 = 0x116;

/// The key code of the power key: boot the option under the cursor.
pub const KEY_POWER: u16 = 0x119;

/// What a key press asks for.
#[derive(Debug, Clone, Copy, PartialEq, Eq, Structural)]
pub enum Input {
    Previous,
    Next,
    Confirm,
    /// A key that the menu does not know.
    Ignored,
}

/// What the key with this code asks for.
pub open spec fn input_of(code: u16) -> Input {
    if code == KEY_VOLUMEUP {
        Input::Previous
    } else if code == KEY_VOLUMEDOWN {
        Input::Next
    } else if code == KEY_POWER {
        Input::Confirm
    } else {
        Input::Ignored
    }
}

/// Tells what the key with this code asks for.
pub fn decode_key(code: u16) -> (input: Input)
    ensures
        input == input_of(code),
{
    if code == KEY_VOLUMEUP {
        Input::Previous
    } else if code == KEY_VOLUMEDOWN {
        Input::Next
    } else if code == KEY_POWER {
        Input::Confirm
    } else {
        Input::Ignored
    }
}

/// The index behind `index` in a list of `len` options, the first behind the
/// last. On an empty list it is 0.
pub open spec fn next_index(index: int, len: int) -> int {
    if len <= 0 {
        0
    } else {
        (index + 1) % len
    }
}

/// The index before `index` in a list of `len` options, the last before the
/// first. On an empty list it is 0.
pub open spec fn prev_index(index: int, len: int) -> int {
    if len <= 0 {
        0
    } else {
        (index + len - 1) % len
    }
}

/// The index reached from `index` by `steps` steps forward.
pub open spec fn next_times(index: int, len: int, steps: nat) -> int
    decreases steps,
{
    if steps == 0 {
        index
    } else {
        next_index(next_times(index, len, (steps - 1) as nat), len)
    }
}

/// Steps forward stay in the list and add up modulo its length.
pub proof fn next_times_is_sum(index: int, len: int, steps: nat)
    requires
        0 <= index < len,
    ensures
        next_times(index, len, steps) == (index + steps) % len,
    decreases steps,
{
    if steps == 0 {
        assert(index % len == index) by (nonlinear_arith)
            requires
                0 <= index < len,
        ;
    } else {
        next_times_is_sum(index, len, (steps - 1) as nat);
        let before = (index + steps - 1) % len;
        assert((before + 1) % len == (index + steps) % len) by (nonlinear_arith)
            requires
                before == (index + steps - 1) % len,
                0 < len,
        ;
    }
}

/// Navigation goes round: as many steps forward as there are options lead
/// back to where they began.
pub proof fn next_cycles(index: int, len: int)
    requires
        0 <= index < len,
    ensures
        next_times(index, len, len as nat) == index,
{
    next_times_is_sum(index, len, len as nat);
    assert((index + len) % len == index) by (nonlinear_arith)
        requires
            0 <= index < len,
    ;
}

/// A step back undoes a step forward, and a step forward a step back; both
/// stay in the list.
pub proof fn prev_inverts_next(index: int, len: int)
    requires
        0 <= index < len,
    ensures
        0 <= next_index(index, len) < len,
        0 <= prev_index(index, len) < len,
        prev_index(next_index(index, len), len) == index,
        next_index(prev_index(index, len), len) == index,
{
    assert(next_index(index, len) == if index + 1 == len { 0 } else { index + 1 }) by (nonlinear_arith)
        requires
            0 <= index < len,
    ;
    assert(prev_index(index, len) == if index == 0 { len - 1 } else { index - 1 }) by (nonlinear_arith)
        requires
            0 <= index < len,
    ;
    let up = next_index(index, len);
    let down = prev_index(index, len);
    assert(prev_index(up, len) == if up == 0 { len - 1 } else { up - 1 }) by (nonlinear_arith)
        requires
            0 <= up < len,
    ;
    assert(next_index(down, len) == if down + 1 == len { 0 } else { down + 1 }) by (nonlinear_arith)
        requires
            0 <= down < len,
    ;
}

/// Where the menu stands.
#[derive(Debug, Clone, Copy, PartialEq, Eq, Structural)]
pub enum MenuState {
    /// Nothing has been drawn yet.
    Idle,
    /// The menu is shown with the cursor on this option.
    Displaying(usize),
    /// This option was confirmed and is being booted.
    Booting(usize),
}

/// The state after the menu was drawn: the first drawing puts the cursor on
/// the first option.
pub open spec fn after_render(state: MenuState) -> MenuState {
    match state {
        MenuState::Idle => MenuState::Displaying(0),
        other => other,
    }
}

/// The state after an input, with `len` options in the list.
///
/// Only a shown menu takes input. Previous and next move the cursor round
/// the list. Confirm starts the boot of the option under the cursor, where
/// there is one. Booting is final.
pub open spec fn after_input(state: MenuState, input: Input, len: int) -> MenuState {
    match state {
        MenuState::Displaying(index) => if index >= len {
            state
        } else {
            match input {
                Input::Previous => MenuState::Displaying(prev_index(index as int, len) as usize),
                Input::Next => MenuState::Displaying(next_index(index as int, len) as usize),
                Input::Confirm => MenuState::Booting(index),
                Input::Ignored => state,
            }
        },
        other => other,
    }
}

/// The state after a boot that came back: the menu is shown again, the
/// cursor where it was.
pub open spec fn after_failed_boot(state: MenuState) -> MenuState {
    match state {
        MenuState::Booting(index) => MenuState::Displaying(index),
        other => other,
    }
}

impl MenuState {
    /// Whether the state fits a list of `len` options: a cursor points into
    /// the list, or at 0 where the list is empty, and only an option of the
    /// list is booted.
    pub open spec fn fits(&self, len: int) -> bool {
        match *self {
            MenuState::Idle => true,
            MenuState::Displaying(index) => index < len || (len == 0 && index == 0),
            MenuState::Booting(index) => index < len,
        }
    }

    /// The state after the menu was drawn.
    pub fn on_render(self) -> (next: MenuState)
        ensures
            next == after_render(self),
    {
        match self {
            MenuState::Idle => MenuState::Displaying(0),
            other => other,
        }
    }

    /// The state after an input, with `len` options in the list.
    pub fn on_input(self, input: Input, len: usize) -> (next: MenuState)
        ensures
            next == after_input(self, input, len as int),
            self.fits(len as int) ==> next.fits(len as int),
    {
        match self {
            MenuState::Displaying(index) => {
                if index >= len {
                    return self;
                }
                proof {
                    prev_inverts_next(index as int, len as int);
                }
                match input {
                    Input::Previous => {
                        let to: usize = if index == 0 {
                            len - 1
                        } else {
                            index - 1
                        };
                        assert(to == prev_index(index as int, len as int)) by (nonlinear_arith)
                            requires
                                0 <= index < len,
                                to == if index == 0 {
                                    len - 1
                                } else {
                                    index - 1
                                },
                        ;
                        MenuState::Displaying(to)
                    },
                    Input::Next => {
                        let to: usize = if index + 1 == len {
                            0
                        } else {
                            index + 1
                        };
                        assert(to == next_index(index as int, len as int)) by (nonlinear_arith)
                            requires
                                0 <= index < len,
                                to == if index + 1 == len {
                                    0
                                } else {
                                    index + 1
                                },
                        ;
                        MenuState::Displaying(to)
                    },
                    Input::Confirm => MenuState::Booting(index),
                    Input::Ignored => self,
                }
            },
            other => other,
        }
    }

    /// The state after a boot that came back.
    pub fn on_boot_failed(self) -> (next: MenuState)
        ensures
            next == after_failed_boot(self),
    {
        match self {
            MenuState::Booting(index) => MenuState::Displaying(index),
            other => other,
        }
    }
}

/// One line of the drawn menu.
#[derive(Debug, Clone)]
pub struct MenuLine {
    pub label: Vec<u8>,
    /// Whether the cursor is on this line; such a line is drawn apart.
    pub selected: bool,
}

/// The lines of the menu: one for each option, in the order of the list,
/// with its label; the line at `selected` is the marked one.
pub fn print_menu(selected: usize, options: &Vec<BootOption>) -> (lines: Vec<MenuLine>)
    ensures
        lines@.len() == options@.len(),
        forall|i: int|
            0 <= i < options@.len() ==> (#[trigger] lines@[i]).label@ == options@[i]@.label()
                && lines@[i].selected == (i == selected),
{
    let mut lines: Vec<MenuLine> = Vec::new();
    let mut i: usize = 0;
    while i < options.len()
        invariant
            0 <= i <= options@.len(),
            lines@.len() == i,
            forall|j: int|
                0 <= j < i ==> (#[trigger] lines@[j]).label@ == options@[j]@.label()
                    && lines@[j].selected == (j == selected),
        decreases options@.len() - i,
    {
        let label: Vec<u8> = to_vec(options[i].label());
        lines.push(MenuLine { label, selected: i == selected });
        i += 1;
    }
    lines
}

/// The splash image to draw with the menu: that of the option under the
/// cursor, where there is such an option and it has one.
pub fn splash_of(selected: usize, options: &Vec<BootOption>) -> (range: Option<SectionRange>)
    ensures
        range == if selected < options@.len() {
            options@[selected as int]@.splash()
        } else {
            None
        },
{
    if selected < options.len() {
        options[selected].splash()
    } else {
        None
    }
}

/// The list of boot options with the cursor on one of them. The cursor
/// always points into the list, or at 0 where the list is empty.
pub struct SelectionState {
    options: Vec<BootOption>,
    index: usize,
}

impl SelectionState {
    #[verifier::type_invariant]
    spec fn cursor_in_list(self) -> bool {
        self.index < self.options@.len() || (self.options@.len() == 0 && self.index == 0)
    }

    /// The options, in the order of the scan.
    pub closed spec fn options(&self) -> Seq<BootOption> {
        self.options@
    }

    /// The index of the option under the cursor.
    pub closed spec fn cursor(&self) -> int {
        self.index as int
    }

    /// The selection over `options`, with the cursor on the first.
    pub fn new(options: Vec<BootOption>) -> (selection: Self)
        ensures
            selection.options() == options@,
            selection.cursor() == 0,
    {
        SelectionState { options, index: 0 }
    }

    /// The number of options.
    pub fn len(&self) -> (n: usize)
        ensures
            n == self.options().len(),
    {
        self.options.len()
    }

    /// The index of the option under the cursor: below `len()` on every list
    /// that has an option.
    pub fn index(&self) -> (i: usize)
        ensures
            i == self.cursor(),
            self.options().len() > 0 ==> i < self.options().len(),
            self.options().len() == 0 ==> i == 0,
    {
        proof {
            use_type_invariant(self);
        }
        self.index
    }

    /// The option under the cursor, where the list has one.
    pub fn current(&self) -> (option: Option<&BootOption>)
        ensures
            option is Some <==> self.options().len() > 0,
            option is Some ==> *option->0 == self.options()[self.cursor()],
    {
        proof {
            use_type_invariant(self);
        }
        if self.index < self.options.len() {
            Some(&self.options[self.index])
        } else {
            None
        }
    }

    /// The options, in the order of the scan.
    pub fn as_vec(&self) -> (options: &Vec<BootOption>)
        ensures
            options@ == self.options(),
    {
        &self.options
    }

    /// Moves the cursor to the next option, from the last to the first.
    pub fn next(&mut self)
        ensures
            final(self).options() == old(self).options(),
            final(self).cursor() == next_index(old(self).cursor(), old(self).options().len() as int),
        no_unwind
    {
        proof {
            use_type_invariant(&*self);
        }
        let len: usize = self.options.len();
        if len > 0 {
            proof {
                prev_inverts_next(self.index as int, len as int);
            }
            let to: usize = if self.index + 1 == len {
                0
            } else {
                self.index + 1
            };
            assert(to == next_index(self.index as int, len as int)) by (nonlinear_arith)
                requires
                    0 <= self.index < len,
                    to == if self.index + 1 == len {
                        0
                    } else {
                        self.index + 1
                    },
            ;
            self.index = to;
        }
    }

    /// Moves the cursor to the option before, from the first to the last.
    pub fn prev(&mut self)
        ensures
            final(self).options() == old(self).options(),
            final(self).cursor() == prev_index(old(self).cursor(), old(self).options().len() as int),
        no_unwind
    {
        proof {
            use_type_invariant(&*self);
        }
        let len: usize = self.options.len();
        if len > 0 {
            proof {
                prev_inverts_next(self.index as int, len as int);
            }
            let to: usize = if self.index == 0 {
                len - 1
            } else {
                self.index - 1
            };
            assert(to == prev_index(self.index as int, len as int)) by (nonlinear_arith)
                requires
                    0 <= self.index < len,
                    to == if self.index == 0 {
                        len - 1
                    } else {
                        self.index - 1
                    },
            ;
            self.index = to;
        }
    }
}

/// The option that a state points at: the first before the menu is drawn.
pub open spec fn cursor_of(state: MenuState) -> int {
    match state {
        MenuState::Idle => 0,
        MenuState::Displaying(index) => index as int,
        MenuState::Booting(index) => index as int,
    }
}

/// What the menu is doing, apart from where its cursor is.
#[derive(Debug, Clone, Copy, PartialEq, Eq, Structural)]
enum Phase {
    Idle,
    Displaying,
    Booting,
}

/// The menu over a list of boot options: the selection and the state of the
/// menu around it.
pub struct SelectionController {
    selection: SelectionState,
    phase: Phase,
}

impl SelectionController {
    #[verifier::type_invariant]
    spec fn phase_fits_cursor(self) -> bool {
        match self.phase {
            Phase::Idle => self.selection.cursor() == 0,
            Phase::Displaying => true,
            Phase::Booting => self.selection.cursor() < self.selection.options().len(),
        }
    }

    /// The options, in the order of the scan.
    pub closed spec fn options(&self) -> Seq<BootOption> {
        self.selection.options()
    }

    /// Where the menu stands.
    pub closed spec fn state(&self) -> MenuState {
        match self.phase {
            Phase::Idle => MenuState::Idle,
            Phase::Displaying => MenuState::Displaying(self.selection.cursor() as usize),
            Phase::Booting => MenuState::Booting(self.selection.cursor() as usize),
        }
    }

    /// The menu over `options`, not drawn yet.
    pub fn new(options: Vec<BootOption>) -> (menu: Self)
        ensures
            menu.options() == options@,
            menu.state() == MenuState::Idle,
    {
        SelectionController { selection: SelectionState::new(options), phase: Phase::Idle }
    }

    /// Where the menu stands. The state always fits the list.
    pub fn current_state(&self) -> (state: MenuState)
        ensures
            state == self.state(),
            state.fits(self.options().len() as int),
    {
        proof {
            use_type_invariant(self);
        }
        let index: usize = self.selection.index();
        match self.phase {
            Phase::Idle => MenuState::Idle,
            Phase::Displaying => MenuState::Displaying(index),
            Phase::Booting => MenuState::Booting(index),
        }
    }

    /// The options, in the order of the scan.
    pub fn as_vec(&self) -> (options: &Vec<BootOption>)
        ensures
            options@ == self.options(),
    {
        self.selection.as_vec()
    }

    /// Draws the menu: the answer holds a line for each option, the one
    /// under the cursor marked. The first drawing shows the menu.
    pub fn render(&mut self) -> (lines: Vec<MenuLine>)
        ensures
            final(self).options() == old(self).options(),
            final(self).state() == after_render(old(self).state()),
            lines@.len() == old(self).options().len(),
            forall|i: int|
                0 <= i < lines@.len() ==> (#[trigger] lines@[i]).label@ == old(self).options()[i]@.label()
                    && lines@[i].selected == (i == cursor_of(final(self).state())),
    {
        proof {
            use_type_invariant(&*self);
        }
        if self.phase == Phase::Idle {
            self.phase = Phase::Displaying;
        }
        print_menu(self.selection.index(), self.selection.as_vec())
    }

    /// The splash image to draw with the menu: that of the option under the
    /// cursor, where there is such an option and it has one.
    pub fn splash(&self) -> (range: Option<SectionRange>)
        ensures
            range == if cursor_of(self.state()) < self.options().len() {
                self.options()[cursor_of(self.state())]@.splash()
            } else {
                None
            },
    {
        proof {
            use_type_invariant(self);
        }
        splash_of(self.selection.index(), self.selection.as_vec())
    }

    /// Takes a key press. The answer is the option to boot, where this key
    /// confirmed one: the option under the cursor.
    pub fn on_key(&mut self, code: u16) -> (confirmed: Option<&BootOption>)
        ensures
            final(self).options() == old(self).options(),
            final(self).state() == after_input(
                old(self).state(),
                input_of(code),
                old(self).options().len() as int,
            ),
            confirmed is Some <==> old(self).state() is Displaying && final(self).state() is Booting,
            confirmed is Some ==> *confirmed->0 == old(self).options()[cursor_of(final(self).state())],
    {
        proof {
            use_type_invariant(&*self);
        }
        let input: Input = decode_key(code);
        let len: usize = self.selection.len();
        let index: usize = self.selection.index();
        if self.phase == Phase::Displaying && index < len {
            match input {
                Input::Previous => {
                    self.selection.prev();
                },
                Input::Next => {
                    self.selection.next();
                },
                Input::Confirm => {
                    self.phase = Phase::Booting;
                    return self.selection.current();
                },
                Input::Ignored => {},
            }
        }
        None
    }

    /// Takes note that the boot came back: the menu is shown again.
    pub fn on_boot_failed(&mut self)
        ensures
            final(self).options() == old(self).options(),
            final(self).state() == after_failed_boot(old(self).state()),
    {
        if self.phase == Phase::Booting {
            self.phase = Phase::Displaying;
        }
    }
}

} // verus!
