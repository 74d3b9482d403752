use arctica::commands::{
    calculate_number_of_shards_cd, calculate_number_of_shards_ramdisk, create_backup, create_bootable_usb,
    distribute_shards_sd2, distribute_shards_sd7, get_user, print_rust, read_cd, test_function,
};
use arctica::script::{Action, Ending, OnFailure, Script};

fn programs(script: &Script) -> Vec<(String, Vec<String>)> {
    script
        .steps
        .iter()
        .filter_map(|s| match &s.action {
            Action::Run { program, args, .. } => Some((program.clone(), args.clone())),
            _ => None,
        })
        .collect()
}

fn strs(v: &[&str]) -> Vec<String> {
    v.iter().map(|s| s.to_string()).collect()
}

#[test]
fn get_user_takes_third_piece() {
    assert_eq!(get_user("/home/satoshi"), Some("satoshi".to_string()));
    assert_eq!(get_user("/home/satoshi/"), Some("satoshi".to_string()));
    assert_eq!(get_user("/root"), None);
    assert_eq!(get_user(""), None);
}

#[test]
fn bootable_usb_sets_config_then_copies() {
    let script = create_bootable_usb("ann", "2", "1");
    match &script.steps[1].action {
        Action::SetConfig { name, value } => {
            assert_eq!(name, "sdNumber");
            assert_eq!(value, "2");
        }
        _ => panic!("expected a config entry"),
    }
    match &script.steps[3].action {
        Action::Print { text } => assert_eq!(text, "creating bootable ubuntu device = 2 1"),
        _ => panic!("expected a printed line"),
    }
    let runs = programs(&script);
    assert_eq!(runs[0], ("sleep".to_string(), strs(&["4"])));
    assert_eq!(
        runs[2],
        ("sudo".to_string(), strs(&["cp", "/home/ann/config.txt", "/mediaannwritable/upper/home/ubuntu"]))
    );
    assert_eq!(runs[5].1[0], "'%s\n'");
    assert_eq!(runs[5].1[7], "/home/ann/arctica/persistent-ubuntu.iso");
}

#[test]
fn distribute_shards_paths() {
    let script = distribute_shards_sd2("ann");
    assert_eq!(
        programs(&script),
        vec![
            ("cp".to_string(), strs(&["/mnt/ramdisk/setupCD/shards/shard2.txt", "/homeann/shards"])),
            ("cp".to_string(), strs(&["/mnt/ramdisk/setupCD/shards/shard10.txt", "/homeann/shards"])),
        ]
    );
    match &script.ending {
        Ending::Message(m) => assert_eq!(m, "SUCCESS in distributing shards to SD 2"),
        _ => panic!("expected a message"),
    }
    let seven = distribute_shards_sd7("ann");
    assert_eq!(seven.steps.len(), 1);
    match &seven.steps[0].on_failure {
        OnFailure::Report(p) => assert_eq!(p, "ERROR in distributing shards to sd7 = "),
        _ => panic!("expected a reported failure"),
    }
}

#[test]
fn backup_image_is_numbered() {
    let runs = programs(&create_backup("ann", "4"));
    assert_eq!(runs.last().unwrap().1, strs(&["-r", "-J", "-o", "/mnt/ramdisk/backup4.iso", "/mnt/ramdisk/backup"]));
}

#[test]
fn test_function_writes_to_home_file() {
    let script = test_function("ann");
    match &script.steps[0].action {
        Action::Run { program, stdout_to, .. } => {
            assert_eq!(program, "echo");
            assert_eq!(stdout_to.as_deref(), Some("/home/ann/testfile.txt"));
        }
        _ => panic!("expected a command"),
    }
}

#[test]
fn read_cd_reads_cd_config() {
    let script = read_cd("ann");
    match &script.steps[1].action {
        Action::ReadConfig { path } => assert_eq!(path, "/media/ann/CDROM/config.txt"),
        _ => panic!("expected a config read"),
    }
    match &script.ending {
        Ending::OutputOf(i) => assert_eq!(*i, 1),
        _ => panic!("expected the read's output"),
    }
}

#[test]
fn shard_directories() {
    assert_eq!(calculate_number_of_shards_cd("ann"), "/media/ann/CDROM/shards");
    assert_eq!(calculate_number_of_shards_ramdisk(), "/mnt/ramdisk/transferCD/shards");
}

#[test]
fn print_rust_prints_input() {
    let script = print_rust("hello");
    match &script.steps[0].action {
        Action::Print { text } => assert_eq!(text, "input = hello"),
        _ => panic!("expected a printed line"),
    }
}
