use ace_engine::control_loop::ControlLoop;
use ace_engine::instructions::get;
use ace_engine::instructions::get_defaults;
use ace_engine::instructions::get_settings;
use ace_engine::instructions::instructions_from_document;
use ace_engine::instructions::InstructionDefaults;
use ace_engine::instructions::PathSettings;
use ace_engine::instructions::list_instructions;
use ace_engine::instructions::parse::to_coords;
use ace_engine::instructions::parse::to_quantity;
use ace_engine::instructions::path_item_to_instruction;
use ace_engine::instructions::path_to_instructions;
use ace_engine::instructions::utils::get_action;
use ace_engine::instructions::utils::get_destination;
use ace_engine::instructions::utils::get_hand_slot;
use ace_engine::instructions::utils::get_looking;
use ace_engine::instructions::utils::get_name;
use ace_engine::instructions::get::same_text;
use ace_engine::instructions::Action;
use ace_engine::instructions::Instruction;
use ace_engine::instructions::LoadError;
use ace_engine::instructions::Looking;
use ace_engine::vectors::Vector3D;

fn table(text: &str) -> toml::Value {
    toml::from_str::<toml::Value>(text).unwrap()
}

const ROUTE: &str = r#"
[default]
allow_run = true
hand_slot = "3"

[[instruction]]
name = "to the field"
path = [
    { action = "walk", destination = [10.5, 64.0, -3.25] },
    { action = "fly", destination = [20.0, 70.0, 0.0], looking = "back", allow_run = false },
    { action = "interact", destination = [20.0, 70.0, 4.0], looking = 90.0, hand_slot = "7" },
]

[[instruction]]
reverse = true
allow_sneak = true
hand_slot = "8"
path = [
    { action = "walk", destination = [1.0, 2.0, 3.0] },
    { action = "right_clicking", destination = [4.0, 5.0, 6.0] },
]
"#;

fn expected_route() -> Vec<Instruction> {
    let first = Instruction {
        name: String::from("to the field"),
        destination: Vector3D { x: 10_500, y: 64_000, z: -3_250 },
        looking: Looking::Front,
        action: Action::Walk,
        allow_run: true,
        allow_sneak: false,
        rotate_before_walk: false,
        look_downwards: false,
        hand_slot: '3',
        reset_hand_stack: false,
        repeat_right_click: false,
    };
    let second = Instruction {
        destination: Vector3D { x: 20_000, y: 70_000, z: 0 },
        looking: Looking::Back,
        action: Action::Fly,
        allow_run: false,
        ..first.clone()
    };
    let third = Instruction {
        destination: Vector3D { x: 20_000, y: 70_000, z: 4_000 },
        looking: Looking::Direction(90_000),
        action: Action::RightClick,
        reset_hand_stack: true,
        repeat_right_click: true,
        ..first.clone()
    };
    let fourth = Instruction {
        name: String::from("Unknown"),
        destination: Vector3D { x: 4_000, y: 5_000, z: 6_000 },
        looking: Looking::Front,
        action: Action::RightClick,
        allow_run: true,
        allow_sneak: true,
        rotate_before_walk: false,
        look_downwards: false,
        hand_slot: '8',
        reset_hand_stack: true,
        repeat_right_click: false,
    };
    let fifth = Instruction {
        destination: Vector3D { x: 1_000, y: 2_000, z: 3_000 },
        action: Action::Walk,
        reset_hand_stack: false,
        repeat_right_click: true,
        ..fourth.clone()
    };
    vec![first, second, third, fourth, fifth]
}

#[test]
fn a_route_loads_in_order() {
    assert_eq!(list_instructions(ROUTE), Ok(expected_route()));
}

#[test]
fn a_loaded_route_can_be_run() {
    let route = list_instructions(ROUTE).unwrap();
    let control = ControlLoop::new(route).unwrap();
    assert_eq!(control.remaining(), 5);
    assert_eq!(control.head(), Some(&expected_route()[0]));
}

#[test]
fn a_parsed_document_loads_like_its_text() {
    assert_eq!(instructions_from_document(&table(ROUTE)), Ok(expected_route()));
}

#[test]
fn text_that_is_not_toml_is_a_syntax_error() {
    assert_eq!(list_instructions("[default"), Err(LoadError::Syntax));
    assert_eq!(list_instructions("a = = 1"), Err(LoadError::Syntax));
}

#[test]
fn a_document_without_defaults_has_none() {
    assert_eq!(list_instructions("instruction = []"), Ok(Vec::new()));
    let list = list_instructions(
        "[[instruction]]\npath = [{ action = \"walk\", destination = [1.0, 2.0, 3.0] }]",
    )
    .unwrap();
    assert_eq!(list.len(), 1);
    assert_eq!(list[0].hand_slot, '1');
    assert!(!list[0].allow_run && !list[0].allow_sneak);
    assert!(!list[0].rotate_before_walk && !list[0].look_downwards);
    assert_eq!(get_defaults(&table("")), Ok(InstructionDefaults {
        allow_run: false,
        allow_sneak: false,
        rotate_before_walk: false,
        look_downwards: false,
        hand_slot: '1',
    }));
}

#[test]
fn defaults_must_be_a_table() {
    assert_eq!(
        list_instructions("default = 5\ninstruction = []"),
        Err(LoadError::MalformedDefaults)
    );
    assert_eq!(
        list_instructions("default = [1]\ninstruction = []"),
        Err(LoadError::MalformedDefaults)
    );
    assert_eq!(
        list_instructions("instruction = []\n[default]\nhand_slot = 3"),
        Err(LoadError::MalformedHandSlot)
    );
}

#[test]
fn defaults_are_read_from_their_table() {
    let document = table(
        "[default]\nallow_run = true\nlook_downwards = true\nhand_slot = \"4\"\nallow_sneak = 1",
    );
    assert_eq!(get_defaults(&document), Ok(InstructionDefaults {
        allow_run: true,
        allow_sneak: false,
        rotate_before_walk: false,
        look_downwards: true,
        hand_slot: '4',
    }));
}

#[test]
fn a_document_needs_instructions() {
    assert_eq!(list_instructions(""), Err(LoadError::MissingInstructions));
    assert_eq!(list_instructions("[default]"), Err(LoadError::MissingInstructions));
    assert_eq!(
        list_instructions("instruction = \"none\"\n[default]"),
        Err(LoadError::MissingInstructions)
    );
    assert_eq!(
        list_instructions("[default]\n[instruction]\npath = []"),
        Err(LoadError::MissingInstructions)
    );
}

#[test]
fn a_document_without_paths_is_empty() {
    assert_eq!(list_instructions("instruction = []\n[default]"), Ok(Vec::new()));
}

#[test]
fn an_instruction_needs_a_path() {
    assert_eq!(
        list_instructions("[default]\n[[instruction]]\nname = \"lost\""),
        Err(LoadError::MissingPath)
    );
    assert_eq!(list_instructions("instruction = [1]\n[default]"), Err(LoadError::MissingPath));
}

#[test]
fn a_path_must_be_an_array() {
    assert_eq!(
        list_instructions("[default]\n[[instruction]]\npath = 4"),
        Err(LoadError::MalformedPath)
    );
    assert_eq!(
        list_instructions("[default]\n[[instruction]]\npath = \"here\""),
        Err(LoadError::MalformedPath)
    );
    assert_eq!(
        list_instructions("[default]\n[[instruction]]\n[instruction.path]\naction = \"walk\""),
        Err(LoadError::MalformedPath)
    );
    assert_eq!(list_instructions("[default]\n[[instruction]]\npath = []"), Ok(Vec::new()));
}

#[test]
fn a_name_must_be_a_string() {
    assert_eq!(
        list_instructions("[default]\n[[instruction]]\nname = 4\npath = []"),
        Err(LoadError::MalformedName)
    );
}

fn one_waypoint(waypoint: &str) -> Result<Vec<Instruction>, LoadError> {
    list_instructions(&format!("[default]\n[[instruction]]\npath = [{waypoint}]"))
}

#[test]
fn a_waypoint_needs_an_action() {
    assert_eq!(one_waypoint("{ destination = [1.0, 2.0, 3.0] }"), Err(LoadError::MissingAction));
    assert_eq!(
        one_waypoint("{ action = 1, destination = [1.0, 2.0, 3.0] }"),
        Err(LoadError::MissingAction)
    );
    assert_eq!(one_waypoint("7"), Err(LoadError::MissingAction));
}

#[test]
fn a_waypoint_needs_a_destination() {
    assert_eq!(one_waypoint("{ action = \"walk\" }"), Err(LoadError::MissingDestination));
}

#[test]
fn a_destination_is_three_floats() {
    let malformed = [
        "[1.0, 2.0]",
        "[1.0, 2.0, 3.0, 4.0]",
        "[1, 2, 3]",
        "[1.0, 2.0, \"3.0\"]",
        "[1.0, nan, 3.0]",
        "[1.0, inf, 3.0]",
        "[1.0, 2.0, 1e10]",
        "\"1.0, 2.0, 3.0\"",
        "[]",
    ];
    for destination in malformed {
        assert_eq!(
            one_waypoint(&format!("{{ action = \"walk\", destination = {destination} }}")),
            Err(LoadError::MalformedDestination),
            "{destination}"
        );
    }
}

#[test]
fn a_look_is_a_heading_or_a_word() {
    let looking = |word: &str| {
        one_waypoint(&format!(
            "{{ action = \"walk\", destination = [1.0, 2.0, 3.0], looking = {word} }}"
        ))
        .map(|list| list[0].looking)
    };
    assert_eq!(looking("\"back\""), Ok(Looking::Back));
    assert_eq!(looking("\"front\""), Ok(Looking::Front));
    assert_eq!(looking("\"sideways\""), Ok(Looking::Front));
    assert_eq!(looking("-45.5"), Ok(Looking::Direction(-45_500)));
    assert_eq!(looking("0.0"), Ok(Looking::Direction(0)));
    assert_eq!(looking("90"), Err(LoadError::MalformedLooking));
    assert_eq!(looking("true"), Err(LoadError::MalformedLooking));
    assert_eq!(looking("nan"), Err(LoadError::MalformedLooking));
    assert_eq!(looking("1e12"), Err(LoadError::MalformedLooking));
}

#[test]
fn the_first_error_in_a_waypoint_is_told() {
    assert_eq!(one_waypoint("{ looking = 1 }"), Err(LoadError::MissingAction));
    assert_eq!(
        one_waypoint("{ action = \"walk\", looking = 1 }"),
        Err(LoadError::MissingDestination)
    );
    assert_eq!(
        one_waypoint("{ action = \"walk\", destination = [0.0, 0.0, 0.0], looking = 1 }"),
        Err(LoadError::MalformedLooking)
    );
}

#[test]
fn the_settings_of_a_path_are_looked_at_before_its_waypoints() {
    let path = |settings: &str| {
        list_instructions(&format!("{settings}\npath = [{{ looking = 1 }}]"))
    };
    assert_eq!(path("[[instruction]]\nname = 1\nhand_slot = 2"), Err(LoadError::MalformedName));
    assert_eq!(path("[[instruction]]\nhand_slot = 2"), Err(LoadError::MalformedHandSlot));
    assert_eq!(path("[[instruction]]"), Err(LoadError::MissingAction));
    assert_eq!(
        list_instructions("[[instruction]]\nhand_slot = \"x\""),
        Err(LoadError::MalformedHandSlot)
    );
}

#[test]
fn the_first_waypoint_in_error_is_told() {
    let text = "[default]\n[[instruction]]\npath = [\
        { action = \"walk\", destination = [0.0, 0.0, 0.0] },\
        { action = \"walk\" },\
        { destination = [0.0, 0.0, 0.0] }]\n\
        [[instruction]]\nname = 1\npath = []";
    assert_eq!(list_instructions(text), Err(LoadError::MissingDestination));
}

#[test]
fn flags_fall_back_from_waypoint_to_path_to_defaults() {
    let text = "[default]\nallow_run = true\nlook_downwards = true\n\
        [[instruction]]\nlook_downwards = false\nrotate_before_walk = true\npath = [\
        { action = \"walk\", destination = [0.0, 0.0, 0.0] },\
        { action = \"walk\", destination = [0.0, 0.0, 0.0], allow_run = false, rotate_before_walk = false, allow_sneak = true, look_downwards = true },\
        { action = \"walk\", destination = [0.0, 0.0, 0.0], allow_run = \"yes\" }]";
    let list = list_instructions(text).unwrap();
    assert_eq!(list.len(), 3);
    assert!(list[0].allow_run && !list[0].look_downwards && list[0].rotate_before_walk);
    assert!(!list[0].allow_sneak && !list[0].reset_hand_stack);
    assert!(!list[1].allow_run && list[1].look_downwards && !list[1].rotate_before_walk);
    assert!(list[1].allow_sneak);
    // a flag that is not a boolean counts as missing
    assert!(list[2].allow_run);
}

#[test]
fn hand_slots_fall_back_from_path_to_defaults() {
    let slot = |defaults: &str, path: &str, waypoint: &str| {
        list_instructions(&format!(
            "[default]\n{defaults}\n[[instruction]]\n{path}\npath = [{{ action = \"walk\", destination = [0.0, 0.0, 0.0] {waypoint} }}]"
        ))
        .map(|list| list[0].hand_slot)
    };
    assert_eq!(slot("", "", ""), Ok('1'));
    assert_eq!(slot("hand_slot = \"5\"", "", ""), Ok('5'));
    assert_eq!(slot("hand_slot = \"5\"", "hand_slot = \"6\"", ""), Ok('6'));
    assert_eq!(slot("hand_slot = \"5\"", "hand_slot = \"67\"", ""), Ok('6'));
    // a waypoint has no hand slot of its own
    assert_eq!(slot("hand_slot = \"5\"", "hand_slot = \"6\"", ", hand_slot = \"7\""), Ok('6'));
    assert_eq!(slot("hand_slot = \"5\"", "", ", hand_slot = 7"), Ok('5'));
    assert_eq!(slot("hand_slot = \"5\"", "hand_slot = \"\"", ""), Ok('5'));
    assert_eq!(slot("hand_slot = \"0\"", "", ""), Ok('0'));
    assert_eq!(slot("hand_slot = \"9\"", "", ""), Ok('9'));
    assert_eq!(slot("hand_slot = \"w\"", "", ""), Err(LoadError::MalformedHandSlot));
    assert_eq!(slot("hand_slot = \"/\"", "", ""), Err(LoadError::MalformedHandSlot));
    assert_eq!(slot("hand_slot = \":\"", "", ""), Err(LoadError::MalformedHandSlot));
    assert_eq!(slot("", "hand_slot = \" 1\"", ""), Err(LoadError::MalformedHandSlot));
    assert_eq!(slot("hand_slot = 5", "", ""), Err(LoadError::MalformedHandSlot));
    assert_eq!(slot("", "hand_slot = 5", ""), Err(LoadError::MalformedHandSlot));
}

#[test]
fn flag_getters_read_their_own_keys() {
    let all = table(
        "reset_hand_stack = true\nrotate_before_walk = true\nallow_run = true\n\
         allow_sneak = true\nlook_downwards = true\nreverse = true",
    );
    let none = table("other = true");
    assert!(get::repeat_right_click(&table("repeat_right_click = true"), None));
    assert!(!get::repeat_right_click(&all, None));
    assert!(get::repeat_right_click(&all, Some(true)));
    assert!(!get::repeat_right_click(&table("repeat_right_click = false"), Some(true)));
    assert!(get::reset_hand_stack(&all, None));
    assert!(get::rotate_before_walk(&all, None));
    assert!(get::allow_run(&all, None));
    assert!(get::allow_sneak(&all, None));
    assert!(get::look_downwards(&all, None));
    assert!(get::reverse(&all, None));
    assert!(!get::reset_hand_stack(&none, None));
    assert!(!get::rotate_before_walk(&none, Some(false)));
    assert!(get::allow_run(&none, Some(true)));
    assert!(!get::allow_sneak(&none, None));
    assert!(get::look_downwards(&none, Some(true)));
    assert!(!get::reverse(&none, None));
    assert!(get::flag(&all, "reverse", Some(false)));
    assert!(!get::flag(&table("reverse = false"), "reverse", Some(true)));
    assert!(get::flag(&table("reverse = 1"), "reverse", Some(true)));
    assert!(!get::flag(&toml::Value::Integer(3), "reverse", None));
}

#[test]
fn actions_go_by_their_words() {
    let action = |word: &str| get_action(&table(&format!("action = \"{word}\"")));
    assert_eq!(action("walk"), Ok(Action::Walk));
    assert_eq!(action("walking"), Ok(Action::RightClick));
    assert_eq!(action("fly"), Ok(Action::Fly));
    assert_eq!(action("flying"), Ok(Action::RightClick));
    assert_eq!(action("walk "), Ok(Action::RightClick));
    assert_eq!(action("right_clicking"), Ok(Action::RightClick));
    assert_eq!(action("Walk"), Ok(Action::RightClick));
    assert_eq!(action(""), Ok(Action::RightClick));
    assert_eq!(get_action(&table("")), Err(LoadError::MissingAction));
}

#[test]
fn readers_of_a_waypoint_agree_with_the_loader() {
    let waypoint = table("destination = [1.5, -2.0, 0.001]\nlooking = 12.5\nhand_slot = \"9\"\nname = \"n\"");
    assert_eq!(get_destination(&waypoint), Ok(Vector3D { x: 1_500, y: -2_000, z: 1 }));
    assert_eq!(get_looking(&waypoint), Ok(Looking::Direction(12_500)));
    assert_eq!(get_hand_slot(&waypoint, '1'), Ok('9'));
    assert_eq!(get_name(&waypoint), Ok(String::from("n")));
    assert_eq!(get_name(&table("")), Ok(String::from("Unknown")));
    assert_eq!(get_destination(&table("")), Err(LoadError::MissingDestination));
    assert_eq!(get_looking(&table("")), Ok(Looking::Front));
    assert_eq!(get_hand_slot(&table(""), 'x'), Ok('x'));
}

#[test]
fn a_destination_goes_by_its_name_alone() {
    let older = table("to = [1.0, 2.0, 3.0]");
    let both = table("to = [1.0, 2.0, 3.0]\ndestination = [4.0, 5.0, 6.0]");
    assert_eq!(get::to(&older), Ok(Vector3D { x: 1_000, y: 2_000, z: 3_000 }));
    assert_eq!(get::to(&both), Ok(Vector3D { x: 1_000, y: 2_000, z: 3_000 }));
    assert_eq!(get_destination(&older), Err(LoadError::MissingDestination));
    assert_eq!(get_destination(&both), Ok(Vector3D { x: 4_000, y: 5_000, z: 6_000 }));
    assert_eq!(get::to(&table("")), Err(LoadError::MissingDestination));
    assert_eq!(get::to(&table("to = [1.0]")), Err(LoadError::MalformedDestination));
    assert_eq!(
        get_destination(&table("to = [1.0, 2.0, 3.0]\ndestination = 4")),
        Err(LoadError::MalformedDestination)
    );
    assert_eq!(
        one_waypoint("{ action = \"walk\", to = [7.0, 8.0, 9.0] }"),
        Err(LoadError::MissingDestination)
    );
}

#[test]
fn the_word_of_an_action_is_read_as_it_stands() {
    assert_eq!(get::action(&table("action = \"Walk on\"")), Some("Walk on"));
    assert_eq!(get::action(&table("action = 3")), None);
    assert_eq!(get::action(&table("")), None);
}

#[test]
fn a_look_that_will_not_do_is_none() {
    assert_eq!(get::looking(&table("")), Some(Looking::Front));
    assert_eq!(get::looking(&table("looking = \"back\"")), Some(Looking::Back));
    assert_eq!(get::looking(&table("looking = 1.5")), Some(Looking::Direction(1_500)));
    assert_eq!(get::looking(&table("looking = 1")), None);
    assert_eq!(get::looking(&table("looking = inf")), None);
    assert_eq!(get::looking(&table("looking = []")), None);
}

#[test]
fn coordinates_are_read_as_quantities() {
    let value = table("p = [0.1, 0.2, 0.3]");
    assert_eq!(to_coords(value.get("p").unwrap()), Ok(Vector3D { x: 100, y: 200, z: 300 }));
    assert_eq!(to_quantity(&toml::Value::Float(-7.25)), Some(-7_250));
    assert_eq!(to_quantity(&toml::Value::Integer(7)), None);
    assert_eq!(to_quantity(&toml::Value::Float(f64::INFINITY)), None);
    assert_eq!(to_coords(&toml::Value::Boolean(true)), Err(LoadError::MalformedDestination));
}

#[test]
fn texts_compare_by_their_characters() {
    assert!(same_text("back", "back"));
    assert!(!same_text("back", "Back"));
    assert!(!same_text("back", "backs"));
    assert!(same_text("", ""));
}

fn settings(reverse: bool) -> PathSettings {
    PathSettings { name: String::from("alone"), reverse, hand_slot: '6' }
}

#[test]
fn a_waypoint_alone_loads_with_the_settings_of_its_path() {
    let defaults = InstructionDefaults {
        allow_run: false,
        allow_sneak: true,
        rotate_before_walk: false,
        look_downwards: false,
        hand_slot: '2',
    };
    let path = table("allow_run = true");
    let waypoint = table("action = \"walk\"\ndestination = [1.0, 1.0, 1.0]\nhand_slot = \"9\"");
    let forwards = path_item_to_instruction(&defaults, &path, &settings(false), &waypoint).unwrap();
    assert_eq!(forwards.name, "alone");
    assert_eq!(forwards.hand_slot, '6');
    assert_eq!(forwards.action, Action::Walk);
    assert_eq!(forwards.destination, Vector3D { x: 1_000, y: 1_000, z: 1_000 });
    assert_eq!(forwards.looking, Looking::Front);
    assert!(forwards.allow_run && forwards.allow_sneak);
    assert!(!forwards.repeat_right_click);
    let backwards = path_item_to_instruction(&defaults, &path, &settings(true), &waypoint).unwrap();
    assert!(backwards.repeat_right_click);
    let flying = table("action = \"fly\"\ndestination = [1.0, 1.0, 1.0]");
    for reverse in [false, true] {
        let flown = path_item_to_instruction(&defaults, &path, &settings(reverse), &flying).unwrap();
        assert!(!flown.repeat_right_click);
    }
}

#[test]
fn the_hand_stack_is_reset_exactly_where_the_agent_interacts() {
    let defaults = get_defaults(&table("[default]\nreset_hand_stack = true")).unwrap();
    let path = table("reset_hand_stack = true");
    let item = |action: &str, flag: &str| {
        let waypoint =
            table(&format!("action = \"{action}\"\ndestination = [0.0, 0.0, 0.0]\n{flag}"));
        path_item_to_instruction(&defaults, &path, &settings(false), &waypoint)
            .unwrap()
            .reset_hand_stack
    };
    assert!(item("right_click", ""));
    assert!(item("anything", "reset_hand_stack = false"));
    assert!(!item("walk", ""));
    assert!(!item("walk", "reset_hand_stack = true"));
    assert!(!item("fly", "reset_hand_stack = true"));
}

#[test]
fn the_settings_of_a_path_are_its_name_its_direction_and_its_hand_slot() {
    let defaults = get_defaults(&table("[default]\nhand_slot = \"4\"")).unwrap();
    assert_eq!(
        get_settings(&defaults, &table("")),
        Ok(PathSettings { name: String::from("Unknown"), reverse: false, hand_slot: '4' })
    );
    assert_eq!(
        get_settings(&defaults, &table("name = \"n\"\nreverse = true\nhand_slot = \"5\"")),
        Ok(PathSettings { name: String::from("n"), reverse: true, hand_slot: '5' })
    );
    assert_eq!(get_settings(&defaults, &table("name = 1")), Err(LoadError::MalformedName));
    assert_eq!(get_settings(&defaults, &table("hand_slot = 1")), Err(LoadError::MalformedHandSlot));
}

#[test]
fn a_path_in_reverse_is_taken_from_the_last_waypoint() {
    let defaults = get_defaults(&table("")).unwrap();
    let path = table(
        "reverse = true\npath = [\
         { action = \"walk\", destination = [1.0, 0.0, 0.0] },\
         { action = \"walk\", destination = [2.0, 0.0, 0.0] },\
         { action = \"walk\", destination = [3.0, 0.0, 0.0] }]",
    );
    let list = path_to_instructions(&defaults, &path).unwrap();
    let xs: Vec<i64> = list.iter().map(|instruction| instruction.destination.x).collect();
    assert_eq!(xs, vec![3_000, 2_000, 1_000]);
}
