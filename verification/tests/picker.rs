use sidetone::picker::{answers, number_options, select, split_description, DeviceOption};

fn option(name: &str, number: u16) -> DeviceOption {
    DeviceOption::new(name.to_string(), None, format!("hw:{}", number), number)
}

fn three() -> Vec<DeviceOption> {
    vec![option("HDA Intel PCH", 1), option("G35 Headset", 2), option("Webcam", 3)]
}

#[test]
fn new_option_holds_its_parts() {
    let made = DeviceOption::new(
        "G35 Headset".to_string(),
        Some(" | USB Audio".to_string()),
        "hw:CARD=Headset".to_string(),
        4,
    );
    assert_eq!(made.primary_name, "G35 Headset");
    assert_eq!(made.secondary_name, Some(" | USB Audio".to_string()));
    assert_eq!(made.tech_info, "hw:CARD=Headset");
    assert_eq!(made.enumeration_option, 4);
}

#[test]
fn description_of_one_line() {
    let (primary, rest) = split_description("G35 Headset");
    assert_eq!(primary, "G35 Headset");
    assert_eq!(rest, " | ");
}

#[test]
fn description_of_two_lines() {
    let (primary, rest) = split_description("G35 Headset\nUSB Audio");
    assert_eq!(primary, "G35 Headset");
    assert_eq!(rest, " | USB Audio");
}

#[test]
fn description_of_more_lines() {
    let (primary, rest) = split_description("HDA Intel PCH\nALC892 Analog\nDefault Device");
    assert_eq!(primary, "HDA Intel PCH");
    assert_eq!(rest, " | ALC892 Analog | Default Device");
}

#[test]
fn description_with_empty_lines() {
    assert_eq!(split_description(""), (String::new(), " | ".to_string()));
    assert_eq!(split_description("\n"), (String::new(), " | ".to_string()));
    assert_eq!(split_description("a\n"), ("a".to_string(), " | ".to_string()));
    assert_eq!(split_description("\nb"), (String::new(), " | b".to_string()));
    assert_eq!(split_description("a\n\nb"), ("a".to_string(), " |  | b".to_string()));
}

#[test]
fn description_outside_ascii() {
    let (primary, rest) = split_description("Écouteurs\nKopfhörer ü");
    assert_eq!(primary, "Écouteurs");
    assert_eq!(rest, " | Kopfhörer ü");
}

#[test]
fn description_agrees_with_split_and_join() {
    let texts = ["one", "one\ntwo", "one\ntwo\nthree", "\n\n", "x\n", "tab\there\nnext"];
    for text in texts {
        let parts: Vec<&str> = text.split('\n').collect();
        let (primary, rest) = split_description(text);
        assert_eq!(primary, parts[0]);
        assert_eq!(rest, format!(" | {}", parts[1..].join(" | ")));
    }
}

#[test]
fn option_from_a_full_hint() {
    let made = DeviceOption::from_hint(Some("hw:CARD=PCH"), Some("HDA Intel PCH\nAnalog"));
    assert_eq!(made.primary_name, "HDA Intel PCH");
    assert_eq!(made.secondary_name, Some(" | Analog".to_string()));
    assert_eq!(made.tech_info, "hw:CARD=PCH");
    assert_eq!(made.enumeration_option, 0);
}

#[test]
fn option_from_an_empty_hint() {
    let made = DeviceOption::from_hint(None, None);
    assert_eq!(made.primary_name, "Unknown");
    assert_eq!(made.secondary_name, None);
    assert_eq!(made.tech_info, "Unknown");
    assert_eq!(made.enumeration_option, 0);
}

#[test]
fn options_are_numbered_from_one() {
    let mut options = vec![option("a", 0), option("b", 0), option("c", 0)];
    number_options(&mut options);
    assert_eq!(options[0].enumeration_option, 1);
    assert_eq!(options[1].enumeration_option, 2);
    assert_eq!(options[2].enumeration_option, 3);
    assert_eq!(options[0].primary_name, "a");
    assert_eq!(options[1].primary_name, "b");
    assert_eq!(options[2].tech_info, "hw:0");
    let mut none: Vec<DeviceOption> = vec![];
    number_options(&mut none);
    assert!(none.is_empty());
}

#[test]
fn numbers_wrap_at_sixteen_bits() {
    let mut options: Vec<DeviceOption> = Vec::new();
    for _ in 0..65538 {
        options.push(DeviceOption::new(String::new(), None, String::new(), 0));
    }
    number_options(&mut options);
    assert_eq!(options[0].enumeration_option, 1);
    assert_eq!(options[65534].enumeration_option, 65535);
    assert_eq!(options[65535].enumeration_option, 0);
    assert_eq!(options[65536].enumeration_option, 1);
    assert_eq!(options[65537].enumeration_option, 2);
}

#[test]
fn select_by_number() {
    assert_eq!(select(&three(), "2"), Some(1));
    assert_eq!(select(&three(), "1"), Some(0));
    assert_eq!(select(&three(), "3"), Some(2));
}

#[test]
fn select_by_name() {
    assert_eq!(select(&three(), "G35 Headset"), Some(1));
    assert_eq!(select(&three(), "Webcam"), Some(2));
}

#[test]
fn select_finds_nothing() {
    assert_eq!(select(&three(), "4"), None);
    assert_eq!(select(&three(), "0"), None);
    assert_eq!(select(&three(), "g35 headset"), None);
    assert_eq!(select(&three(), "G35"), None);
    assert_eq!(select(&three(), ""), None);
    assert_eq!(select(&three(), "-1"), None);
    assert_eq!(select(&three(), "65538"), None);
    assert_eq!(select(&vec![], "1"), None);
}

#[test]
fn select_passes_over_whitespace() {
    assert_eq!(select(&three(), "  2\n"), Some(1));
    assert_eq!(select(&three(), "\tWebcam \r\n"), Some(2));
    let padded = vec![option("  Padded Name ", 1)];
    assert_eq!(select(&padded, "Padded Name"), Some(0));
    assert_eq!(select(&padded, " Padded Name\n"), Some(0));
    assert_eq!(select(&padded, "Padded  Name"), None);
}

#[test]
fn select_takes_the_first_that_answers() {
    let options = vec![option("3", 1), option("Twin", 2), option("Twin", 3)];
    assert_eq!(select(&options, "3"), Some(0));
    assert_eq!(select(&options, "Twin"), Some(1));
    assert_eq!(select(&options, "2"), Some(1));
}

#[test]
fn select_reads_numbers_as_the_standard_parser_does() {
    assert_eq!(select(&three(), "+2"), Some(1));
    assert_eq!(select(&three(), "002"), Some(1));
    assert_eq!(select(&three(), "2.0"), None);
    assert_eq!(select(&three(), "0x2"), None);
}

#[test]
fn answers_by_number_or_by_name() {
    assert!(answers(2, "Headset", Some(2), "2"));
    assert!(answers(2, "Headset", None, "Headset"));
    assert!(answers(2, "Headset", Some(7), "Headset"));
    assert!(answers(2, "7", Some(7), "7"));
    assert!(!answers(2, "Headset", Some(3), "3"));
    assert!(!answers(2, "Headset", None, "headset"));
    assert!(!answers(2, "Headset", None, ""));
    assert!(answers(2, "", None, ""));
}

#[test]
fn select_names_an_option_that_can_be_copied_out() {
    let options = three();
    let position = select(&options, "Webcam").expect("the webcam is listed");
    let chosen = options[position].clone();
    assert_eq!(chosen, options[2]);
    assert_eq!(chosen.tech_info, "hw:3");
}
