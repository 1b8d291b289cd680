//! Synthetic input as data: the commands an executor decides on, the script
//! that collects them, and what a script leaves pressed.

use vstd::prelude::*;

verus! {

/// A key of the keyboard.
#[derive(Clone, Copy, Debug, PartialEq, Eq)]
pub enum Key {
    /// Move forward.
    W,
    /// Strafe.
    A,
    /// Move backward.
    S,
    /// Open or close the container view.
    E,
    /// The run modifier.
    Control,
    /// Sneak on the ground, descend in flight.
    Shift,
    /// Jump on the ground, ascend in flight.
    Space,
    /// The key that types this character on the current layout.
    Layout(char),
}

/// A button of the pointer.
#[derive(Clone, Copy, Debug, PartialEq, Eq)]
pub enum MouseButton {
    Left,
    Middle,
    Right,
}

/// A timed press that runs on its own once started. It cannot be cancelled,
/// and it releases what it pressed.
#[derive(Clone, Copy, Debug, PartialEq, Eq)]
pub enum Pulse {
    /// Press and release `0` at once.
    Tap(Key),
    /// Press `key`, and the run modifier with it if `boost`, keep them down
    /// for `millis` milliseconds, then release the modifier and the key.
    Hold { key: Key, boost: bool, millis: u64 },
}

/// One step of a script.
#[derive(Clone, Copy, Debug, PartialEq, Eq)]
pub enum InputCommand {
    /// Press a key and keep it down.
    KeyDown(Key),
    /// Release a key.
    KeyUp(Key),
    /// Press and release a key at once.
    KeyClick(Key),
    /// Press a button and keep it down.
    MouseDown(MouseButton),
    /// Release a button.
    MouseUp(MouseButton),
    /// Press and release a button at once.
    MouseClick(MouseButton),
    /// Move the pointer by so many units to the right and downwards.
    MouseMoveRelative(i32, i32),
    /// Pause the script for so many milliseconds.
    Wait(u64),
    /// Start a pulse and go on without waiting for it.
    Detach(Pulse),
}

/// The commands decided on so far, in the order in which they are to be
/// carried out.
#[derive(Debug)]
pub struct InputScript {
    pub commands: Vec<InputCommand>,
}

impl View for InputScript {
    type V = Seq<InputCommand>;

    open spec fn view(&self) -> Seq<InputCommand> {
        self.commands@
    }
}

impl InputScript {
    /// An empty script.
    pub fn new() -> (out: Self)
        ensures
            out@ == Seq::<InputCommand>::empty(),
    {
        InputScript { commands: Vec::new() }
    }

    /// Appends `command`.
    pub fn push(&mut self, command: InputCommand)
        ensures
            final(self)@ == old(self)@.push(command),
    {
        self.commands.push(command);
    }

    /// Appends a press of `key`.
    pub fn key_down(&mut self, key: Key)
        ensures
            final(self)@ == old(self)@.push(InputCommand::KeyDown(key)),
    {
        self.commands.push(InputCommand::KeyDown(key));
    }

    /// Appends a release of `key`.
    pub fn key_up(&mut self, key: Key)
        ensures
            final(self)@ == old(self)@.push(InputCommand::KeyUp(key)),
    {
        self.commands.push(InputCommand::KeyUp(key));
    }

    /// Appends a click of `key`.
    pub fn key_click(&mut self, key: Key)
        ensures
            final(self)@ == old(self)@.push(InputCommand::KeyClick(key)),
    {
        self.commands.push(InputCommand::KeyClick(key));
    }

    /// Appends a press of `button`.
    pub fn mouse_down(&mut self, button: MouseButton)
        ensures
            final(self)@ == old(self)@.push(InputCommand::MouseDown(button)),
    {
        self.commands.push(InputCommand::MouseDown(button));
    }

    /// Appends a release of `button`.
    pub fn mouse_up(&mut self, button: MouseButton)
        ensures
            final(self)@ == old(self)@.push(InputCommand::MouseUp(button)),
    {
        self.commands.push(InputCommand::MouseUp(button));
    }

    /// Appends a click of `button`.
    pub fn mouse_click(&mut self, button: MouseButton)
        ensures
            final(self)@ == old(self)@.push(InputCommand::MouseClick(button)),
    {
        self.commands.push(InputCommand::MouseClick(button));
    }

    /// Appends a move of the pointer by `x` to the right and `y` downwards.
    pub fn mouse_move_relative(&mut self, x: i32, y: i32)
        ensures
            final(self)@ == old(self)@.push(InputCommand::MouseMoveRelative(x, y)),
    {
        self.commands.push(InputCommand::MouseMoveRelative(x, y));
    }

    /// Appends a pause of `millis` milliseconds.
    pub fn wait(&mut self, millis: u64)
        ensures
            final(self)@ == old(self)@.push(InputCommand::Wait(millis)),
    {
        self.commands.push(InputCommand::Wait(millis));
    }

    /// Appends the start of `pulse`.
    pub fn detach(&mut self, pulse: Pulse)
        ensures
            final(self)@ == old(self)@.push(InputCommand::Detach(pulse)),
    {
        self.commands.push(InputCommand::Detach(pulse));
    }
}

impl Pulse {
    /// What a pulse does, step by step: a tap is a click; a held press
    /// presses its key, and the run modifier after it if boosted, pauses,
    /// and releases them in the opposite order.
    pub open spec fn commands(self) -> Seq<InputCommand> {
        match self {
            Pulse::Tap(key) => seq![InputCommand::KeyClick(key)],
            Pulse::Hold { key, boost, millis } => if boost {
                seq![
                    InputCommand::KeyDown(key),
                    InputCommand::KeyDown(Key::Control),
                    InputCommand::Wait(millis),
                    InputCommand::KeyUp(Key::Control),
                    InputCommand::KeyUp(key),
                ]
            } else {
                seq![InputCommand::KeyDown(key), InputCommand::Wait(millis), InputCommand::KeyUp(key)]
            },
        }
    }

    /// The script of the pulse, to be carried out on its own.
    pub fn script(self) -> (out: InputScript)
        ensures
            out@ == self.commands(),
    {
        let mut out = InputScript::new();
        match self {
            Pulse::Tap(key) => {
                out.key_click(key);
            },
            Pulse::Hold { key, boost, millis } => {
                out.key_down(key);
                if boost {
                    out.key_down(Key::Control);
                }
                out.wait(millis);
                if boost {
                    out.key_up(Key::Control);
                }
                out.key_up(key);
            },
        }
        out
    }
}

/// What is pressed on the input device.
pub struct Held {
    pub keys: Set<Key>,
    pub buttons: Set<MouseButton>,
}

impl Held {
    /// Nothing pressed.
    pub open spec fn nothing() -> Held {
        Held { keys: Set::empty(), buttons: Set::empty() }
    }

    /// What is pressed once `command` has been carried out. A click
    /// presses and releases, so it leaves its key or button up, also where
    /// it was down before. A script does not wait for the pulse that it
    /// starts, so the pulse is not counted here: what it presses, it releases
    /// on its own (see [`Pulse::commands`]).
    pub open spec fn after(self, command: InputCommand) -> Held {
        match command {
            InputCommand::KeyDown(key) => Held { keys: self.keys.insert(key), ..self },
            InputCommand::KeyUp(key) => Held { keys: self.keys.remove(key), ..self },
            InputCommand::KeyClick(key) => Held { keys: self.keys.remove(key), ..self },
            InputCommand::MouseDown(button) => Held {
                buttons: self.buttons.insert(button),
                ..self
            },
            InputCommand::MouseUp(button) => Held { buttons: self.buttons.remove(button), ..self },
            InputCommand::MouseClick(button) => Held {
                buttons: self.buttons.remove(button),
                ..self
            },
            _ => self,
        }
    }

    /// Whether the keys and the button of the held channels are pressed
    /// here exactly if they are pressed in `other`: the forward key, the run
    /// modifier, the sneak key and the secondary button.
    pub open spec fn same_channels(self, other: Held) -> bool {
        &&& self.keys.contains(Key::W) <==> other.keys.contains(Key::W)
        &&& self.keys.contains(Key::Control) <==> other.keys.contains(Key::Control)
        &&& self.keys.contains(Key::Shift) <==> other.keys.contains(Key::Shift)
        &&& self.buttons.contains(MouseButton::Right) <==> other.buttons.contains(
            MouseButton::Right,
        )
    }

    /// What is pressed once all of `commands` have been carried out in order.
    pub open spec fn after_all(self, commands: Seq<InputCommand>) -> Held
        decreases commands.len(),
    {
        if commands.len() == 0 {
            self
        } else {
            self.after_all(commands.drop_last()).after(commands.last())
        }
    }
}

/// Whether `command` lets go of a key or a button.
pub open spec fn is_release(command: InputCommand) -> bool {
    command is KeyUp || command is MouseUp
}

/// Whether `command` leaves the keys and the button of the held channels
/// alone.
pub open spec fn spares_channels(command: InputCommand) -> bool {
    match command {
        InputCommand::KeyDown(key) | InputCommand::KeyUp(key) | InputCommand::KeyClick(key) => key
            != Key::W && key != Key::Control && key != Key::Shift,
        InputCommand::MouseDown(button) | InputCommand::MouseUp(button) | InputCommand::MouseClick(
            button,
        ) => button != MouseButton::Right,
        _ => true,
    }
}

impl Held {
    /// Whether `command` presses nothing that is pressed.
    pub open spec fn is_new(self, command: InputCommand) -> bool {
        match command {
            InputCommand::KeyDown(key) => !self.keys.contains(key),
            InputCommand::MouseDown(button) => !self.buttons.contains(button),
            _ => true,
        }
    }

    /// Whether none of `commands`, carried out in order, presses what is
    /// pressed by then.
    pub open spec fn all_new(self, commands: Seq<InputCommand>) -> bool
        decreases commands.len(),
    {
        if commands.len() == 0 {
            true
        } else {
            self.all_new(commands.drop_last()) && self.after_all(commands.drop_last()).is_new(
                commands.last(),
            )
        }
    }
}

/// A script with one more command presses nothing twice if it did not
/// before and the command presses nothing that is pressed by then.
pub proof fn lemma_all_new_push(held: Held, commands: Seq<InputCommand>, command: InputCommand)
    ensures
        held.all_new(commands.push(command)) == (held.all_new(commands) && held.after_all(
            commands,
        ).is_new(command)),
{
    assert(commands.push(command).drop_last() == commands);
}

/// A script of one command presses nothing twice if the command presses
/// nothing that is pressed.
pub proof fn lemma_all_new_one(held: Held, command: InputCommand)
    ensures
        held.all_new(seq![command]) == held.is_new(command),
{
    lemma_all_new_push(held, seq![], command);
    assert(seq![command] == Seq::<InputCommand>::empty().push(command));
}

/// Two scripts in a row press nothing twice if neither does, the second
/// starting from what the first leaves pressed.
pub proof fn lemma_all_new_add(held: Held, first: Seq<InputCommand>, second: Seq<InputCommand>)
    ensures
        held.all_new(first + second) == (held.all_new(first) && held.after_all(first).all_new(
            second,
        )),
    decreases second.len(),
{
    if second.len() == 0 {
        assert(first + second == first);
    } else {
        lemma_all_new_add(held, first, second.drop_last());
        lemma_after_all_add(held, first, second.drop_last());
        assert((first + second).drop_last() == first + second.drop_last());
    }
}

/// A script that presses nothing presses nothing twice.
pub proof fn lemma_all_new_without_presses(held: Held, commands: Seq<InputCommand>)
    requires
        forall|i: int|
            0 <= i < commands.len() ==> (#[trigger] commands[i]) !is KeyDown && commands[i]
                !is MouseDown,
    ensures
        held.all_new(commands),
    decreases commands.len(),
{
    if commands.len() > 0 {
        lemma_all_new_without_presses(held, commands.drop_last());
    }
}

/// Carrying out one more command is one more step from what was pressed.
pub proof fn lemma_after_all_push(held: Held, commands: Seq<InputCommand>, command: InputCommand)
    ensures
        held.after_all(commands.push(command)) == held.after_all(commands).after(command),
{
    assert(commands.push(command).drop_last() == commands);
}

/// Carrying out a script of one command is carrying out that command.
pub proof fn lemma_after_all_one(held: Held, command: InputCommand)
    ensures
        held.after_all(seq![command]) == held.after(command),
{
    lemma_after_all_push(held, seq![], command);
    assert(seq![command] == Seq::<InputCommand>::empty().push(command));
}

/// Carrying out two scripts one after the other is carrying out both.
pub proof fn lemma_after_all_add(held: Held, first: Seq<InputCommand>, second: Seq<InputCommand>)
    ensures
        held.after_all(first + second) == held.after_all(first).after_all(second),
    decreases second.len(),
{
    if second.len() == 0 {
        assert(first + second == first);
    } else {
        lemma_after_all_add(held, first, second.drop_last());
        assert((first + second).drop_last() == first + second.drop_last());
    }
}

/// A script of releases presses nothing: what is pressed after it was
/// pressed before it.
pub proof fn lemma_releases_press_nothing(held: Held, commands: Seq<InputCommand>)
    requires
        forall|i: int| 0 <= i < commands.len() ==> is_release(#[trigger] commands[i]),
    ensures
        held.all_new(commands),
        held.after_all(commands).keys.subset_of(held.keys),
        held.after_all(commands).buttons.subset_of(held.buttons),
    decreases commands.len(),
{
    if commands.len() > 0 {
        lemma_releases_press_nothing(held, commands.drop_last());
    }
}

/// A script that leaves the held channels alone leaves them as they were.
pub proof fn lemma_after_all_sparing(held: Held, commands: Seq<InputCommand>)
    requires
        forall|i: int| 0 <= i < commands.len() ==> spares_channels(#[trigger] commands[i]),
    ensures
        held.after_all(commands).same_channels(held),
    decreases commands.len(),
{
    if commands.len() > 0 {
        lemma_after_all_sparing(held, commands.drop_last());
    }
}

/// Whether `wanted` holds of every command in `commands`.
#[verifier::opaque]
pub open spec fn all_where(commands: Seq<InputCommand>, wanted: spec_fn(InputCommand) -> bool) -> bool {
    forall|i: int| 0 <= i < commands.len() ==> wanted(#[trigger] commands[i])
}

/// What holds of every command of two scripts holds of every command of
/// the two in a row.
pub proof fn lemma_all_add(
    first: Seq<InputCommand>,
    second: Seq<InputCommand>,
    wanted: spec_fn(InputCommand) -> bool,
)
    requires
        all_where(first, wanted),
        all_where(second, wanted),
    ensures
        all_where(first + second, wanted),
{
    reveal(all_where);
}

/// A pulse leaves up what it has pressed, and touches nothing else.
pub proof fn lemma_pulse_releases(held: Held, pulse: Pulse)
    ensures
        held.after_all(pulse.commands()) == (match pulse {
            Pulse::Tap(key) => Held { keys: held.keys.remove(key), ..held },
            Pulse::Hold { key, boost, millis } => Held {
                keys: if boost {
                    held.keys.remove(key).remove(Key::Control)
                } else {
                    held.keys.remove(key)
                },
                ..held
            },
        }),
{
    match pulse {
        Pulse::Tap(key) => {
            lemma_after_all_one(held, InputCommand::KeyClick(key));
        },
        Pulse::Hold { key, boost, millis } => {
            let pressed = seq![InputCommand::KeyDown(key)];
            lemma_after_all_one(held, InputCommand::KeyDown(key));
            if boost {
                let boosted = pressed.push(InputCommand::KeyDown(Key::Control));
                let paused = boosted.push(InputCommand::Wait(millis));
                let slowed = paused.push(InputCommand::KeyUp(Key::Control));
                let released = slowed.push(InputCommand::KeyUp(key));
                lemma_after_all_push(held, pressed, InputCommand::KeyDown(Key::Control));
                lemma_after_all_push(held, boosted, InputCommand::Wait(millis));
                lemma_after_all_push(held, paused, InputCommand::KeyUp(Key::Control));
                lemma_after_all_push(held, slowed, InputCommand::KeyUp(key));
                assert(pulse.commands() == released);
                assert(held.keys.insert(key).insert(Key::Control).remove(Key::Control).remove(key)
                    == held.keys.remove(key).remove(Key::Control));
            } else {
                let paused = pressed.push(InputCommand::Wait(millis));
                let released = paused.push(InputCommand::KeyUp(key));
                lemma_after_all_push(held, pressed, InputCommand::Wait(millis));
                lemma_after_all_push(held, paused, InputCommand::KeyUp(key));
                assert(pulse.commands() == released);
                assert(held.keys.insert(key).remove(key) == held.keys.remove(key));
            }
        },
    }
}

/// The number of commands in `commands` that `wanted` holds of.
pub open spec fn count_where(
    commands: Seq<InputCommand>,
    wanted: spec_fn(InputCommand) -> bool,
) -> nat
    decreases commands.len(),
{
    if commands.len() == 0 {
        0
    } else {
        count_where(commands.drop_last(), wanted) + if wanted(commands.last()) {
            1nat
        } else {
            0nat
        }
    }
}

/// Counting over two scripts in a row is counting over each.
pub proof fn lemma_count_add(
    first: Seq<InputCommand>,
    second: Seq<InputCommand>,
    wanted: spec_fn(InputCommand) -> bool,
)
    ensures
        count_where(first + second, wanted) == count_where(first, wanted) + count_where(
            second,
            wanted,
        ),
    decreases second.len(),
{
    if second.len() == 0 {
        assert(first + second == first);
    } else {
        lemma_count_add(first, second.drop_last(), wanted);
        assert((first + second).drop_last() == first + second.drop_last());
    }
}

/// A script without a wanted command counts zero.
pub proof fn lemma_count_none(commands: Seq<InputCommand>, wanted: spec_fn(InputCommand) -> bool)
    requires
        forall|i: int| 0 <= i < commands.len() ==> !wanted(#[trigger] commands[i]),
    ensures
        count_where(commands, wanted) == 0,
    decreases commands.len(),
{
    if commands.len() > 0 {
        lemma_count_none(commands.drop_last(), wanted);
    }
}

/// A script whose only wanted command stands at `at` counts one.
pub proof fn lemma_count_one(
    commands: Seq<InputCommand>,
    wanted: spec_fn(InputCommand) -> bool,
    at: int,
)
    requires
        0 <= at < commands.len(),
        forall|i: int| 0 <= i < commands.len() ==> (wanted(#[trigger] commands[i]) <==> i == at),
    ensures
        count_where(commands, wanted) == 1,
    decreases commands.len(),
{
    if at == commands.len() - 1 {
        lemma_count_none(commands.drop_last(), wanted);
    } else {
        lemma_count_one(commands.drop_last(), wanted, at);
    }
}

} // verus!
