//! Waypoint instructions.

pub mod document;
pub mod get;
pub mod parse;
pub mod utils;

use vstd::prelude::*;
use crate::fixed::check_range;
use crate::fixed::in_range;
use crate::instructions::document::as_items;
use crate::instructions::document::document_of;
use crate::instructions::document::is_table;
use crate::instructions::document::member;
use crate::instructions::document::member_of;
use crate::instructions::document::Node;
use crate::instructions::document::node_of;
use crate::instructions::document::parse;
use crate::instructions::get::flag_of;
use crate::instructions::utils::action_of;
use crate::instructions::utils::destination_of;
use crate::instructions::utils::get_action;
use crate::instructions::utils::get_destination;
use crate::instructions::utils::get_hand_slot;
use crate::instructions::utils::get_looking;
use crate::instructions::utils::get_name;
use crate::instructions::utils::hand_slot_of;
use crate::instructions::utils::looking_of;
use crate::instructions::utils::name_of;
use crate::vectors::Vector3D;

verus! {

/// Where the agent looks while it approaches a waypoint.
#[derive(Clone, Copy, Debug, PartialEq, Eq)]
pub enum Looking {
    /// Towards the destination.
    Front,
    /// Away from the destination.
    Back,
    /// Along a fixed compass heading, in thousandths of a degree, wherever
    /// the agent stands.
    Direction(i64),
}

/// How the agent gets to a waypoint.
#[derive(Clone, Copy, Debug, PartialEq, Eq)]
pub enum Action {
    /// In free flight, by timed key pulses.
    Fly,
    /// On the ground, holding the forward key.
    Walk,
    /// On the ground, using the item in hand on the way.
    RightClick,
}

/// Why an instruction file cannot be used.
#[derive(Clone, Copy, Debug, PartialEq, Eq)]
pub enum LoadError {
    /// The text is not a TOML document.
    Syntax,
    /// The defaults of the document are not a table.
    MalformedDefaults,
    /// The document has no array of instructions.
    MissingInstructions,
    /// An instruction has a name that is not a string.
    MalformedName,
    /// A hand slot is not a string that begins with a digit.
    MalformedHandSlot,
    /// An instruction has no path.
    MissingPath,
    /// The path of an instruction is not an array.
    MalformedPath,
    /// A waypoint names no action.
    MissingAction,
    /// A waypoint has no destination.
    MissingDestination,
    /// A destination is not an array of three floats within range.
    MalformedDestination,
    /// A waypoint looks neither along a heading within range nor where a
    /// string says.
    MalformedLooking,
}

/// One waypoint and how to behave on the way to it.
#[derive(Debug, PartialEq, Eq)]
pub struct Instruction {
    pub name: String,
    pub destination: Vector3D,
    pub looking: Looking,
    pub action: Action,
    pub allow_run: bool,
    pub allow_sneak: bool,
    pub rotate_before_walk: bool,
    pub look_downwards: bool,
    pub hand_slot: char,
    pub reset_hand_stack: bool,
    pub repeat_right_click: bool,
}

impl Clone for Instruction {
    fn clone(&self) -> (out: Self)
        ensures
            out == *self,
    {
        Instruction {
            name: self.name.clone(),
            destination: self.destination,
            looking: self.looking,
            action: self.action,
            allow_run: self.allow_run,
            allow_sneak: self.allow_sneak,
            rotate_before_walk: self.rotate_before_walk,
            look_downwards: self.look_downwards,
            hand_slot: self.hand_slot,
            reset_hand_stack: self.reset_hand_stack,
            repeat_right_click: self.repeat_right_click,
        }
    }
}

impl Instruction {
    /// Whether the destination and the heading to keep are quantities the
    /// engine works with.
    pub open spec fn in_range(&self) -> bool {
        &&& in_range(self.destination.x as int)
        &&& in_range(self.destination.y as int)
        &&& in_range(self.destination.z as int)
        &&& self.looking matches Looking::Direction(heading) ==> in_range(heading as int)
    }

    /// Whether the destination and the heading to keep lie within the
    /// engine's range.
    pub fn check_range(&self) -> (ok: bool)
        ensures
            ok == self.in_range(),
    {
        let heading_fits: bool = match self.looking {
            Looking::Direction(heading) => check_range(heading),
            _ => true,
        };
        heading_fits && check_range(self.destination.x) && check_range(self.destination.y)
            && check_range(self.destination.z)
    }
}

/// An instruction as a value: the same as the instruction, with the name
/// as the text it holds.
pub struct InstructionView {
    pub name: Seq<char>,
    pub destination: Vector3D,
    pub looking: Looking,
    pub action: Action,
    pub allow_run: bool,
    pub allow_sneak: bool,
    pub rotate_before_walk: bool,
    pub look_downwards: bool,
    pub hand_slot: char,
    pub reset_hand_stack: bool,
    pub repeat_right_click: bool,
}

impl View for Instruction {
    type V = InstructionView;

    open spec fn view(&self) -> InstructionView {
        InstructionView {
            name: self.name@,
            destination: self.destination,
            looking: self.looking,
            action: self.action,
            allow_run: self.allow_run,
            allow_sneak: self.allow_sneak,
            rotate_before_walk: self.rotate_before_walk,
            look_downwards: self.look_downwards,
            hand_slot: self.hand_slot,
            reset_hand_stack: self.reset_hand_stack,
            repeat_right_click: self.repeat_right_click,
        }
    }
}

/// The instructions of a list as values.
pub open spec fn views(list: Seq<Instruction>) -> Seq<InstructionView> {
    list.map_values(|instruction: Instruction| instruction@)
}

/// What an instruction file says of all its paths, unless a path or a
/// waypoint says otherwise.
#[derive(Clone, Copy, Debug, PartialEq, Eq)]
pub struct InstructionDefaults {
    pub allow_run: bool,
    pub allow_sneak: bool,
    pub rotate_before_walk: bool,
    pub look_downwards: bool,
    pub hand_slot: char,
}

/// What a path says of all its waypoints.
#[derive(Debug, PartialEq, Eq)]
pub struct PathSettings {
    pub name: String,
    pub reverse: bool,
    pub hand_slot: char,
}

/// The settings of a path as a value, the name as the text it holds.
pub struct PathSettingsView {
    pub name: Seq<char>,
    pub reverse: bool,
    pub hand_slot: char,
}

impl View for PathSettings {
    type V = PathSettingsView;

    open spec fn view(&self) -> PathSettingsView {
        PathSettingsView { name: self.name@, reverse: self.reverse, hand_slot: self.hand_slot }
    }
}

/// The defaults of a file that holds none: no flag set, the first hand
/// slot.
pub open spec fn no_defaults() -> InstructionDefaults {
    InstructionDefaults {
        allow_run: false,
        allow_sneak: false,
        rotate_before_walk: false,
        look_downwards: false,
        hand_slot: '1',
    }
}

/// The defaults of a document: what its table `default` says. A document
/// without that member has no defaults; a member that is not a table will
/// not do, nor will a hand slot that is malformed.
pub open spec fn defaults_of(document: toml::Value) -> Result<InstructionDefaults, LoadError> {
    match member_of(document, "default"@) {
        None => Ok(no_defaults()),
        Some(table) => if node_of(table) !is Table {
            Err(LoadError::MalformedDefaults)
        } else {
            match hand_slot_of(table, '1') {
                Err(error) => Err(error),
                Ok(hand_slot) => Ok(
                    InstructionDefaults {
                        allow_run: flag_of(table, "allow_run"@, None),
                        allow_sneak: flag_of(table, "allow_sneak"@, None),
                        rotate_before_walk: flag_of(table, "rotate_before_walk"@, None),
                        look_downwards: flag_of(table, "look_downwards"@, None),
                        hand_slot,
                    },
                ),
            }
        },
    }
}

/// Reads the defaults of a document.
pub fn get_defaults(document: &toml::Value) -> (out: Result<InstructionDefaults, LoadError>)
    ensures
        out == defaults_of(*document),
{
    match member(document, "default") {
        None => Ok(
            InstructionDefaults {
                allow_run: false,
                allow_sneak: false,
                rotate_before_walk: false,
                look_downwards: false,
                hand_slot: '1',
            },
        ),
        Some(table) => {
            if !is_table(table) {
                return Err(LoadError::MalformedDefaults);
            }
            match get_hand_slot(table, '1') {
                Err(error) => Err(error),
                Ok(hand_slot) => Ok(
                    InstructionDefaults {
                        allow_run: get::allow_run(table, None),
                        allow_sneak: get::allow_sneak(table, None),
                        rotate_before_walk: get::rotate_before_walk(table, None),
                        look_downwards: get::look_downwards(table, None),
                        hand_slot,
                    },
                ),
            }
        },
    }
}

/// The settings of a path: its name, whether it is taken in reverse, and
/// its hand slot, which is that of the defaults unless the path names one.
/// The name is looked at first.
pub open spec fn settings_of(defaults: InstructionDefaults, path: toml::Value) -> Result<
    PathSettingsView,
    LoadError,
> {
    match name_of(path) {
        Err(error) => Err(error),
        Ok(name) => match hand_slot_of(path, defaults.hand_slot) {
            Err(error) => Err(error),
            Ok(hand_slot) => Ok(
                PathSettingsView { name, reverse: flag_of(path, "reverse"@, None), hand_slot },
            ),
        },
    }
}

/// Reads the settings of a path.
pub fn get_settings(defaults: &InstructionDefaults, path: &toml::Value) -> (out: Result<
    PathSettings,
    LoadError,
>)
    ensures
        out matches Ok(settings) ==> settings_of(*defaults, *path) == Ok::<
            PathSettingsView,
            LoadError,
        >(settings@),
        out matches Err(error) ==> settings_of(*defaults, *path) == Err::<
            PathSettingsView,
            LoadError,
        >(error),
{
    let name = match get_name(path) {
        Ok(name) => name,
        Err(error) => {
            return Err(error);
        },
    };
    match get_hand_slot(path, defaults.hand_slot) {
        Err(error) => Err(error),
        Ok(hand_slot) => Ok(PathSettings { name, reverse: get::reverse(path, None), hand_slot }),
    }
}

/// A flag of a waypoint: what the waypoint says, or else its path, or
/// else `default`.
pub open spec fn layered_flag(
    default: bool,
    path: toml::Value,
    waypoint: toml::Value,
    key: Seq<char>,
) -> bool {
    flag_of(waypoint, key, Some(flag_of(path, key, Some(default))))
}

/// Whether the secondary button is held on the way to a waypoint: on a
/// path taken forwards, where the action is to interact; on a path taken
/// in reverse, where the action is to walk.
pub open spec fn holds_right_click(action: Action, reverse: bool) -> bool {
    (action is RightClick && !reverse) || (action is Walk && reverse)
}

/// The instruction that a waypoint of a path stands for.
///
/// Its action, destination and look are its own, and are looked at in this
/// order: the first that will not do is the error. Its name and its hand
/// slot are those of the path. The hand stack is reset exactly where the
/// action is to interact.
pub open spec fn waypoint_instruction(
    defaults: InstructionDefaults,
    path: toml::Value,
    settings: PathSettingsView,
    waypoint: toml::Value,
) -> Result<InstructionView, LoadError> {
    match action_of(waypoint) {
        Err(error) => Err(error),
        Ok(action) => match destination_of(waypoint) {
            Err(error) => Err(error),
            Ok(destination) => match looking_of(waypoint) {
                Err(error) => Err(error),
                Ok(looking) => Ok(
                    InstructionView {
                        name: settings.name,
                        destination,
                        looking,
                        action,
                        allow_run: layered_flag(defaults.allow_run, path, waypoint, "allow_run"@),
                        allow_sneak: layered_flag(
                            defaults.allow_sneak,
                            path,
                            waypoint,
                            "allow_sneak"@,
                        ),
                        rotate_before_walk: layered_flag(
                            defaults.rotate_before_walk,
                            path,
                            waypoint,
                            "rotate_before_walk"@,
                        ),
                        look_downwards: layered_flag(
                            defaults.look_downwards,
                            path,
                            waypoint,
                            "look_downwards"@,
                        ),
                        hand_slot: settings.hand_slot,
                        reset_hand_stack: action is RightClick,
                        repeat_right_click: holds_right_click(action, settings.reverse),
                    },
                ),
            },
        },
    }
}

/// The instructions that the waypoints of a path stand for, in the order
/// of the file. The first waypoint that will not do is the error.
pub open spec fn waypoint_instructions(
    defaults: InstructionDefaults,
    path: toml::Value,
    settings: PathSettingsView,
    waypoints: Seq<toml::Value>,
) -> Result<Seq<InstructionView>, LoadError>
    decreases waypoints.len(),
{
    if waypoints.len() == 0 {
        Ok(seq![])
    } else {
        match waypoint_instructions(defaults, path, settings, waypoints.drop_last()) {
            Err(error) => Err(error),
            Ok(before) => match waypoint_instruction(defaults, path, settings, waypoints.last()) {
                Err(error) => Err(error),
                Ok(instruction) => Ok(before.push(instruction)),
            },
        }
    }
}

/// The waypoints of a path: the items of the array under `path`, which
/// must be there and must be an array.
pub open spec fn waypoints_of(path: toml::Value) -> Result<Seq<toml::Value>, LoadError> {
    match member_of(path, "path"@) {
        None => Err(LoadError::MissingPath),
        Some(found) => match node_of(found) {
            Node::Array(items) => Ok(items),
            _ => Err(LoadError::MalformedPath),
        },
    }
}

/// The instructions of a path: those of its waypoints, from the last to
/// the first if the path is taken in reverse. The settings of the path are
/// looked at first, then its waypoints.
pub open spec fn path_instructions(defaults: InstructionDefaults, path: toml::Value) -> Result<
    Seq<InstructionView>,
    LoadError,
> {
    match settings_of(defaults, path) {
        Err(error) => Err(error),
        Ok(settings) => match waypoints_of(path) {
            Err(error) => Err(error),
            Ok(waypoints) => match waypoint_instructions(defaults, path, settings, waypoints) {
                Err(error) => Err(error),
                Ok(list) => Ok(
                    if settings.reverse {
                        list.reverse()
                    } else {
                        list
                    },
                ),
            },
        },
    }
}

/// The instructions of all of `paths`, one path after the other. The
/// first path that will not do is the error.
pub open spec fn all_path_instructions(
    defaults: InstructionDefaults,
    paths: Seq<toml::Value>,
) -> Result<Seq<InstructionView>, LoadError>
    decreases paths.len(),
{
    if paths.len() == 0 {
        Ok(seq![])
    } else {
        match all_path_instructions(defaults, paths.drop_last()) {
            Err(error) => Err(error),
            Ok(before) => match path_instructions(defaults, paths.last()) {
                Err(error) => Err(error),
                Ok(list) => Ok(before + list),
            },
        }
    }
}

/// The instructions of a document. Its defaults are looked at first; then
/// it must hold an array `instruction` of paths.
pub open spec fn document_instructions(document: toml::Value) -> Result<
    Seq<InstructionView>,
    LoadError,
> {
    match defaults_of(document) {
        Err(error) => Err(error),
        Ok(defaults) => match member_of(document, "instruction"@) {
            None => Err(LoadError::MissingInstructions),
            Some(found) => match node_of(found) {
                Node::Array(paths) => all_path_instructions(defaults, paths),
                _ => Err(LoadError::MissingInstructions),
            },
        },
    }
}

/// The instructions of an instruction file, which must be a TOML
/// document.
pub open spec fn text_instructions(text: Seq<char>) -> Result<Seq<InstructionView>, LoadError> {
    match document_of(text) {
        None => Err(LoadError::Syntax),
        Some(document) => document_instructions(document),
    }
}

/// Whether `out` is what `expected` says: the same error, or a list of
/// the same instructions, all with quantities the engine works with.
pub open spec fn is_loaded(
    out: Result<Vec<Instruction>, LoadError>,
    expected: Result<Seq<InstructionView>, LoadError>,
) -> bool {
    match out {
        Ok(list) => {
            &&& expected == Ok::<Seq<InstructionView>, LoadError>(views(list@))
            &&& forall|i: int| 0 <= i < list.len() ==> (#[trigger] list[i]).in_range()
        },
        Err(error) => expected == Err::<Seq<InstructionView>, LoadError>(error),
    }
}

/// Reads the instruction that a waypoint of a path stands for.
pub fn path_item_to_instruction(
    defaults: &InstructionDefaults,
    path: &toml::Value,
    settings: &PathSettings,
    waypoint: &toml::Value,
) -> (out: Result<Instruction, LoadError>)
    ensures
        out matches Ok(instruction) ==> instruction.in_range() && waypoint_instruction(
            *defaults,
            *path,
            settings@,
            *waypoint,
        ) == Ok::<InstructionView, LoadError>(instruction@),
        out matches Err(error) ==> waypoint_instruction(*defaults, *path, settings@, *waypoint)
            == Err::<InstructionView, LoadError>(error),
{
    let action = match get_action(waypoint) {
        Ok(action) => action,
        Err(error) => {
            return Err(error);
        },
    };
    let destination = match get_destination(waypoint) {
        Ok(destination) => destination,
        Err(error) => {
            return Err(error);
        },
    };
    let looking = match get_looking(waypoint) {
        Ok(looking) => looking,
        Err(error) => {
            return Err(error);
        },
    };
    let (reset_hand_stack, repeat_right_click) = match action {
        Action::RightClick => (true, !settings.reverse),
        Action::Walk => (false, settings.reverse),
        Action::Fly => (false, false),
    };
    Ok(
        Instruction {
            name: settings.name.clone(),
            destination,
            looking,
            action,
            allow_run: get::allow_run(
                waypoint,
                Some(get::allow_run(path, Some(defaults.allow_run))),
            ),
            allow_sneak: get::allow_sneak(
                waypoint,
                Some(get::allow_sneak(path, Some(defaults.allow_sneak))),
            ),
            rotate_before_walk: get::rotate_before_walk(
                waypoint,
                Some(get::rotate_before_walk(path, Some(defaults.rotate_before_walk))),
            ),
            look_downwards: get::look_downwards(
                waypoint,
                Some(get::look_downwards(path, Some(defaults.look_downwards))),
            ),
            hand_slot: settings.hand_slot,
            reset_hand_stack,
            repeat_right_click,
        },
    )
}

/// Reads the instructions of a path.
#[verifier::loop_isolation(false)]
pub fn path_to_instructions(defaults: &InstructionDefaults, path: &toml::Value) -> (out: Result<
    Vec<Instruction>,
    LoadError,
>)
    ensures
        is_loaded(out, path_instructions(*defaults, *path)),
{
    let settings = match get_settings(defaults, path) {
        Ok(settings) => settings,
        Err(error) => {
            return Err(error);
        },
    };
    let found = match member(path, "path") {
        Some(found) => found,
        None => {
            return Err(LoadError::MissingPath);
        },
    };
    let waypoints = match as_items(found) {
        Some(waypoints) => waypoints,
        None => {
            return Err(LoadError::MalformedPath);
        },
    };
    let mut list: Vec<Instruction> = Vec::new();
    let mut done: usize = 0;
    assert(views(list@) == Seq::<InstructionView>::empty());
    while done < waypoints.len()
        invariant
            done <= waypoints.len(),
            waypoint_instructions(
                *defaults,
                *path,
                settings@,
                waypoints@.subrange(0, done as int),
            ) == Ok::<Seq<InstructionView>, LoadError>(views(list@)),
            forall|i: int| 0 <= i < list.len() ==> (#[trigger] list[i]).in_range(),
        decreases waypoints.len() - done,
    {
        let ghost so_far = waypoints@.subrange(0, done as int);
        let ghost next = waypoints@.subrange(0, done + 1);
        assert(next.drop_last() == so_far);
        assert(next.last() == waypoints@[done as int]);
        match path_item_to_instruction(defaults, path, &settings, &waypoints[done]) {
            Ok(instruction) => {
                assert(views(list@.push(instruction)) == views(list@).push(instruction@));
                list.push(instruction);
            },
            Err(error) => {
                assert(waypoint_instructions(*defaults, *path, settings@, next) == Err::<
                    Seq<InstructionView>,
                    LoadError,
                >(error));
                proof {
                    lemma_error_stays(*defaults, *path, settings@, waypoints@, done + 1, error);
                }
                return Err(error);
            },
        }
        done += 1;
    }
    assert(waypoints@.subrange(0, done as int) == waypoints@);
    if settings.reverse {
        let reversed = reversed(list);
        Ok(reversed)
    } else {
        Ok(list)
    }
}

/// Once a waypoint will not do, the whole path will not do, for the same
/// reason.
proof fn lemma_error_stays(
    defaults: InstructionDefaults,
    path: toml::Value,
    settings: PathSettingsView,
    waypoints: Seq<toml::Value>,
    upto: int,
    error: LoadError,
)
    requires
        0 <= upto <= waypoints.len(),
        waypoint_instructions(defaults, path, settings, waypoints.subrange(0, upto)) == Err::<
            Seq<InstructionView>,
            LoadError,
        >(error),
    ensures
        waypoint_instructions(defaults, path, settings, waypoints) == Err::<
            Seq<InstructionView>,
            LoadError,
        >(error),
    decreases waypoints.len() - upto,
{
    if upto < waypoints.len() {
        assert(waypoints.subrange(0, upto + 1).drop_last() == waypoints.subrange(0, upto));
        lemma_error_stays(defaults, path, settings, waypoints, upto + 1, error);
    } else {
        assert(waypoints.subrange(0, upto) == waypoints);
    }
}

/// The instructions of `list` from the last to the first.
fn reversed(list: Vec<Instruction>) -> (out: Vec<Instruction>)
    ensures
        out@ == list@.reverse(),
        views(out@) == views(list@).reverse(),
{
    let mut out: Vec<Instruction> = Vec::new();
    let mut left: usize = list.len();
    while left > 0
        invariant
            left <= list.len(),
            out.len() == list.len() - left,
            forall|i: int| 0 <= i < out.len() ==> out[i] == list[list.len() - 1 - i],
        decreases left,
    {
        left -= 1;
        out.push(list[left].clone());
    }
    assert(out@ == list@.reverse());
    assert(views(out@) == views(list@).reverse());
    out
}

/// Reads the instructions of a parsed instruction file.
#[verifier::loop_isolation(false)]
pub fn instructions_from_document(document: &toml::Value) -> (out: Result<
    Vec<Instruction>,
    LoadError,
>)
    ensures
        is_loaded(out, document_instructions(*document)),
{
    let defaults = match get_defaults(document) {
        Ok(defaults) => defaults,
        Err(error) => {
            return Err(error);
        },
    };
    let found = match member(document, "instruction") {
        Some(found) => found,
        None => {
            return Err(LoadError::MissingInstructions);
        },
    };
    let paths = match as_items(found) {
        Some(paths) => paths,
        None => {
            return Err(LoadError::MissingInstructions);
        },
    };
    let mut list: Vec<Instruction> = Vec::new();
    let mut done: usize = 0;
    assert(views(list@) == Seq::<InstructionView>::empty());
    while done < paths.len()
        invariant
            done <= paths.len(),
            all_path_instructions(defaults, paths@.subrange(0, done as int)) == Ok::<
                Seq<InstructionView>,
                LoadError,
            >(views(list@)),
            forall|i: int| 0 <= i < list.len() ==> (#[trigger] list[i]).in_range(),
        decreases paths.len() - done,
    {
        let ghost so_far = paths@.subrange(0, done as int);
        let ghost next = paths@.subrange(0, done + 1);
        assert(next.drop_last() == so_far);
        assert(next.last() == paths@[done as int]);
        match path_to_instructions(&defaults, &paths[done]) {
            Ok(mut more) => {
                assert(views(list@ + more@) == views(list@) + views(more@));
                list.append(&mut more);
            },
            Err(error) => {
                assert(all_path_instructions(defaults, next) == Err::<
                    Seq<InstructionView>,
                    LoadError,
                >(error));
                proof {
                    lemma_path_error_stays(defaults, paths@, done + 1, error);
                }
                return Err(error);
            },
        }
        done += 1;
    }
    assert(paths@.subrange(0, done as int) == paths@);
    Ok(list)
}

/// Once a path will not do, the whole document will not do, for the same
/// reason.
proof fn lemma_path_error_stays(
    defaults: InstructionDefaults,
    paths: Seq<toml::Value>,
    upto: int,
    error: LoadError,
)
    requires
        0 <= upto <= paths.len(),
        all_path_instructions(defaults, paths.subrange(0, upto)) == Err::<
            Seq<InstructionView>,
            LoadError,
        >(error),
    ensures
        all_path_instructions(defaults, paths) == Err::<Seq<InstructionView>, LoadError>(error),
    decreases paths.len() - upto,
{
    if upto < paths.len() {
        assert(paths.subrange(0, upto + 1).drop_last() == paths.subrange(0, upto));
        lemma_path_error_stays(defaults, paths, upto + 1, error);
    } else {
        assert(paths.subrange(0, upto) == paths);
    }
}

/// Reads an instruction file: the instructions of all its paths, in the
/// order in which they are to be carried out.
pub fn list_instructions(text: &str) -> (out: Result<Vec<Instruction>, LoadError>)
    ensures
        is_loaded(out, text_instructions(text@)),
{
    match parse(text) {
        Ok(document) => instructions_from_document(&document),
        Err(_) => Err(LoadError::Syntax),
    }
}

} // verus!
