//! The installer's commands, each as the script of outside actions it performs
//! and the answers it gives. `user` is the name of the user whose home
//! directory is `/home/<user>`; `number` is the SD card's number as the front
//! end gives it.
use vstd::prelude::*;

use crate::script::{Action, ActionView, Ending, EndingView, OnFailure, OnFailureView, Script, ScriptView, Step, StepView, well_formed};
use crate::keys::{KeyError, PrivateKey, PublicKey, PublicKeyView, Network, parsed_public_key, derive_public_key, generate_private_key, is_valid_secret_key, public_key_serialization, recover_private_key, recover_public_key, recovered_private_key, recovered_public_key, text_result};
use crate::config::{config_entries_of, has_name, is_plain_field, lemma_update_config_read_back, updated_config};
use crate::text::{split, split_on, views};

verus! {

pub open spec fn step_views(v: Seq<Step>) -> Seq<StepView> {
    v.map_values(|s: Step| s@)
}

/// A step that runs a program.
pub open spec fn run_step(program: Seq<char>, args: Seq<Seq<char>>, on_failure: OnFailureView) -> StepView {
    StepView {
        action: ActionView::Run { program, args, stdout_to: None, show_output: false },
        on_failure,
    }
}

/// A step that prints a line.
pub open spec fn print_step(text: Seq<char>) -> StepView {
    StepView { action: ActionView::Print { text }, on_failure: OnFailureView::Continue }
}

/// A script that answers `message` when it runs to its end.
pub open spec fn message_script(steps: Seq<StepView>, message: Seq<char>) -> ScriptView {
    ScriptView { steps, ending: EndingView::Message(message) }
}

/// A step that runs a program with its standard output sent to a new file.
pub open spec fn run_to_file_step(
    program: Seq<char>,
    args: Seq<Seq<char>>,
    file: Seq<char>,
    on_failure: OnFailureView,
) -> StepView {
    StepView {
        action: ActionView::Run { program, args, stdout_to: Some(file), show_output: false },
        on_failure,
    }
}

/// A script that answers the output of its step `i` when it runs to its end.
pub open spec fn output_script(steps: Seq<StepView>, i: nat) -> ScriptView {
    ScriptView { steps, ending: EndingView::OutputOf(i) }
}

/// A path under the user's home directory.
pub open spec fn home_path(user: Seq<char>, rest: Seq<char>) -> Seq<char> {
    "/home/"@ + user + rest
}

/// Running one of the user's setup scripts, whatever its outcome.
pub open spec fn user_script_step(user: Seq<char>, name: Seq<char>) -> StepView {
    run_step("bash"@, seq![home_path(user, "/scripts/"@ + name)], ignore())
}

pub open spec fn report(prefix: Seq<char>) -> OnFailureView {
    OnFailureView::Report(prefix)
}

pub open spec fn ignore() -> OnFailureView {
    OnFailureView::Continue
}

fn lit(s: &str) -> (res: String)
    ensures
        res@ == s@,
{
    s.to_owned()
}

fn join(a: &str, b: &str) -> (res: String)
    ensures
        res@ == a@ + b@,
{
    let mut res = a.to_owned();
    res.append(b);
    res
}

fn join3(a: &str, b: &str, c: &str) -> (res: String)
    ensures
        res@ == a@ + b@ + c@,
{
    let mut res = a.to_owned();
    res.append(b);
    res.append(c);
    res
}

fn args1(a: &str) -> (res: Vec<String>)
    ensures
        views(res@) == seq![a@],
{
    let mut res: Vec<String> = Vec::new();
    res.push(a.to_owned());
    proof {
        assert(views(res@) =~= seq![a@]);
    }
    res
}

fn args2(a: &str, b: &str) -> (res: Vec<String>)
    ensures
        views(res@) == seq![a@, b@],
{
    let mut res: Vec<String> = Vec::new();
    res.push(a.to_owned());
    res.push(b.to_owned());
    proof {
        assert(views(res@) =~= seq![a@, b@]);
    }
    res
}

fn args3(a: &str, b: &str, c: &str) -> (res: Vec<String>)
    ensures
        views(res@) == seq![a@, b@, c@],
{
    let mut res: Vec<String> = Vec::new();
    res.push(a.to_owned());
    res.push(b.to_owned());
    res.push(c.to_owned());
    proof {
        assert(views(res@) =~= seq![a@, b@, c@]);
    }
    res
}

fn args4(a: &str, b: &str, c: &str, d: &str) -> (res: Vec<String>)
    ensures
        views(res@) == seq![a@, b@, c@, d@],
{
    let mut res: Vec<String> = Vec::new();
    res.push(a.to_owned());
    res.push(b.to_owned());
    res.push(c.to_owned());
    res.push(d.to_owned());
    proof {
        assert(views(res@) =~= seq![a@, b@, c@, d@]);
    }
    res
}

fn args5(a: &str, b: &str, c: &str, d: &str, e: &str) -> (res: Vec<String>)
    ensures
        views(res@) == seq![a@, b@, c@, d@, e@],
{
    let mut res: Vec<String> = Vec::new();
    res.push(a.to_owned());
    res.push(b.to_owned());
    res.push(c.to_owned());
    res.push(d.to_owned());
    res.push(e.to_owned());
    proof {
        assert(views(res@) =~= seq![a@, b@, c@, d@, e@]);
    }
    res
}

fn args6(a: &str, b: &str, c: &str, d: &str, e: &str, f: &str) -> (res: Vec<String>)
    ensures
        views(res@) == seq![a@, b@, c@, d@, e@, f@],
{
    let mut res: Vec<String> = Vec::new();
    res.push(a.to_owned());
    res.push(b.to_owned());
    res.push(c.to_owned());
    res.push(d.to_owned());
    res.push(e.to_owned());
    res.push(f.to_owned());
    proof {
        assert(views(res@) =~= seq![a@, b@, c@, d@, e@, f@]);
    }
    res
}

fn args7(a: &str, b: &str, c: &str, d: &str, e: &str, f: &str, g: &str) -> (res: Vec<String>)
    ensures
        views(res@) == seq![a@, b@, c@, d@, e@, f@, g@],
{
    let mut res: Vec<String> = Vec::new();
    res.push(a.to_owned());
    res.push(b.to_owned());
    res.push(c.to_owned());
    res.push(d.to_owned());
    res.push(e.to_owned());
    res.push(f.to_owned());
    res.push(g.to_owned());
    proof {
        assert(views(res@) =~= seq![a@, b@, c@, d@, e@, f@, g@]);
    }
    res
}

fn args8(a: &str, b: &str, c: &str, d: &str, e: &str, f: &str, g: &str, h: &str) -> (res: Vec<String>)
    ensures
        views(res@) == seq![a@, b@, c@, d@, e@, f@, g@, h@],
{
    let mut res: Vec<String> = Vec::new();
    res.push(a.to_owned());
    res.push(b.to_owned());
    res.push(c.to_owned());
    res.push(d.to_owned());
    res.push(e.to_owned());
    res.push(f.to_owned());
    res.push(g.to_owned());
    res.push(h.to_owned());
    proof {
        assert(views(res@) =~= seq![a@, b@, c@, d@, e@, f@, g@, h@]);
    }
    res
}

fn reporting(prefix: &str) -> (res: OnFailure)
    ensures
        res@ == report(prefix@),
{
    OnFailure::Report(prefix.to_owned())
}

fn ignoring() -> (res: OnFailure)
    ensures
        res@ == ignore(),
{
    OnFailure::Continue
}

fn run_to_file(program: &str, args: Vec<String>, file: &str, on_failure: OnFailure) -> (res: Step)
    ensures
        res@ == run_to_file_step(program@, views(args@), file@, on_failure@),
{
    Step {
        action: Action::Run {
            program: program.to_owned(),
            args,
            stdout_to: Some(file.to_owned()),
            show_output: false,
        },
        on_failure,
    }
}

fn home(user: &str, rest: &str) -> (res: String)
    ensures
        res@ == home_path(user@, rest@),
{
    join3("/home/", user, rest)
}

fn user_script(user: &str, name: &str) -> (res: Step)
    ensures
        res@ == user_script_step(user@, name@),
{
    let path = join3("/home/", user, "/scripts/");
    let path = join(path.as_str(), name);
    proof {
        assert(path@ =~= home_path(user@, "/scripts/"@ + name@));
    }
    run("bash", args1(path.as_str()), ignoring())
}

fn with_output(steps: Vec<Step>, i: usize) -> (res: Script)
    requires
        i < steps.len(),
    ensures
        res@ == output_script(step_views(steps@), i as nat),
        well_formed(res@),
{
    Script { steps, ending: Ending::OutputOf(i) }
}

fn run(program: &str, args: Vec<String>, on_failure: OnFailure) -> (res: Step)
    ensures
        res@ == run_step(program@, views(args@), on_failure@),
{
    Step {
        action: Action::Run { program: program.to_owned(), args, stdout_to: None, show_output: false },
        on_failure,
    }
}

fn print_lit(text: &str) -> (res: Step)
    ensures
        res@ == print_step(text@),
{
    Step { action: Action::Print { text: text.to_owned() }, on_failure: OnFailure::Continue }
}

fn print(text: String) -> (res: Step)
    ensures
        res@ == print_step(text@),
{
    Step { action: Action::Print { text }, on_failure: OnFailure::Continue }
}

fn with_message(steps: Vec<Step>, message: &str) -> (res: Script)
    ensures
        res@ == message_script(step_views(steps@), message@),
        well_formed(res@),
{
    Script { steps, ending: Ending::Message(message.to_owned()) }
}

/// The script of `test_function`.
pub open spec fn test_function_script(user: Seq<char>) -> ScriptView {
    message_script(
        seq![
            run_to_file_step(
                "echo"@,
                seq!["file contents go here"@],
                home_path(user, "/testfile.txt"@),
                report("ERROR in test function = "@),
            ),
        ],
        "SUCCESS in test function"@,
    )
}

/// Writes a test file in the user's home directory by way of `echo`.
pub fn test_function(user: &str) -> (res: Script)
    ensures
        res@ == test_function_script(user@),
        well_formed(res@),
{
    let file = home(user, "/testfile.txt");
    let steps = vec![
        run_to_file(
            "echo",
            args1("file contents go here"),
            file.as_str(),
            reporting("ERROR in test function = "),
        ),
    ];
    let res = with_message(steps, "SUCCESS in test function");
    proof {
        assert(res@.steps =~= test_function_script(user@).steps);
    }
    res
}

/// The script of `obtain_ubuntu`.
pub open spec fn obtain_ubuntu_script() -> ScriptView {
    message_script(
        seq![
            print_step("obtaining & creating modified ubuntu iso"@),
            StepView {
                action: ActionView::Run {
                    program: "bash"@,
                    args: seq!["./scripts/init-iso.sh"@],
                    stdout_to: None,
                    show_output: true,
                },
                on_failure: ignore(),
            },
            print_step(";"@),
        ],
        "completed with no problems"@,
    )
}

/// Runs the script that fetches and modifies the Ubuntu image, echoing its output.
pub fn obtain_ubuntu() -> (res: Script)
    ensures
        res@ == obtain_ubuntu_script(),
        well_formed(res@),
{
    let fetch = Step {
        action: Action::Run {
            program: lit("bash"),
            args: args1("./scripts/init-iso.sh"),
            stdout_to: None,
            show_output: true,
        },
        on_failure: OnFailure::Continue,
    };
    let steps = vec![print_lit("obtaining & creating modified ubuntu iso"), fetch, print_lit(";")];
    let res = with_message(steps, "completed with no problems");
    proof {
        assert(res@.steps =~= obtain_ubuntu_script().steps);
    }
    res
}

/// A step that sets a config entry; writing the file cannot fail softly.
pub open spec fn set_config_step(name: Seq<char>, value: Seq<char>) -> StepView {
    StepView { action: ActionView::SetConfig { name, value }, on_failure: ignore() }
}

fn set_config(name: &str, value: &str) -> (res: Step)
    ensures
        res@ == set_config_step(name@, value@),
{
    Step { action: Action::SetConfig { name: name.to_owned(), value: value.to_owned() }, on_failure: OnFailure::Continue }
}

/// The script of `create_bootable_usb`.
pub open spec fn create_bootable_usb_script(user: Seq<char>, number: Seq<char>, setup: Seq<char>) -> ScriptView {
    let config = "/media/"@ + user + "/writable/upper/home/ubuntu/config.txt"@;
    message_script(
        seq![
            set_config_step("type"@, "sdcard"@),
            set_config_step("sdNumber"@, number),
            set_config_step("setupStep"@, setup),
            print_step("creating bootable ubuntu device = "@ + number + " "@ + setup),
            run_step("sleep"@, seq!["4"@], ignore()),
            run_step("sudo"@, seq!["rm"@, config], ignore()),
            run_step(
                "sudo"@,
                seq!["cp"@, home_path(user, "/config.txt"@), "/media"@ + user + "writable/upper/home/ubuntu"@],
                report("ERROR in creating bootable with copying current config = "@),
            ),
            run_step(
                "sudo"@,
                seq!["chmod"@, "777"@, config],
                report("ERROR in creating bootable with opening file permissions = "@),
            ),
            run_step(
                "sudo"@,
                seq!["rm"@, home_path(user, "/config.txt"@)],
                report("ERROR in creating bootable with removing current working config = "@),
            ),
            run_step(
                "printf"@,
                seq![
                    "'%s\n'"@,
                    "n"@,
                    "y"@,
                    "g"@,
                    "y"@,
                    "|"@,
                    "mkusb"@,
                    home_path(user, "/arctica/persistent-ubuntu.iso"@),
                ],
                report("ERROR in creating bootable with mkusb = "@),
            ),
        ],
        "SUCCESS in creating bootable device"@,
    )
}

/// Records the SD card's number and setup step in the config, moves the config
/// onto the boot medium and burns the image with mkusb. Any failure of a copy,
/// permission change, removal or burn is answered as an `Err`.
pub fn create_bootable_usb(user: &str, number: &str, setup: &str) -> (res: Script)
    ensures
        res@ == create_bootable_usb_script(user@, number@, setup@),
        well_formed(res@),
        // the SD card's type, number and setup step are recorded as given
        res@.steps[0].action == (ActionView::SetConfig { name: "type"@, value: "sdcard"@ }),
        res@.steps[1].action == (ActionView::SetConfig { name: "sdNumber"@, value: number@ }),
        res@.steps[2].action == (ActionView::SetConfig { name: "setupStep"@, value: setup@ }),
{
    let config = join3("/media/", user, "/writable/upper/home/ubuntu/config.txt");
    let heading = join3("creating bootable ubuntu device = ", number, " ");
    let heading = join(heading.as_str(), setup);
    let local_config = home(user, "/config.txt");
    let target = join3("/media", user, "writable/upper/home/ubuntu");
    let image = home(user, "/arctica/persistent-ubuntu.iso");
    let steps = vec![
        set_config("type", "sdcard"),
        set_config("sdNumber", number),
        set_config("setupStep", setup),
        print(heading),
        run("sleep", args1("4"), ignoring()),
        run("sudo", args2("rm", config.as_str()), ignoring()),
        run(
            "sudo",
            args3("cp", local_config.as_str(), target.as_str()),
            reporting("ERROR in creating bootable with copying current config = "),
        ),
        run(
            "sudo",
            args3("chmod", "777", config.as_str()),
            reporting("ERROR in creating bootable with opening file permissions = "),
        ),
        run(
            "sudo",
            args2("rm", local_config.as_str()),
            reporting("ERROR in creating bootable with removing current working config = "),
        ),
        run(
            "printf",
            args8("'%s\n'", "n", "y", "g", "y", "|", "mkusb", image.as_str()),
            reporting("ERROR in creating bootable with mkusb = "),
        ),
    ];
    let res = with_message(steps, "SUCCESS in creating bootable device");
    proof {
        assert(res@.steps =~= create_bootable_usb_script(user@, number@, setup@).steps);
    }
    res
}

/// The script of `create_setup_cd`.
pub open spec fn create_setup_cd_script(user: Seq<char>) -> ScriptView {
    output_script(
        seq![print_step("creating setup CD"@), user_script_step(user, "create-setup-cd.sh"@), print_step(";"@)],
        1,
    )
}

/// Runs the user's script that creates the setup CD; answers its output.
pub fn create_setup_cd(user: &str) -> (res: Script)
    ensures
        res@ == create_setup_cd_script(user@),
        well_formed(res@),
        // the answer is the output of the user's script
        res@.ending == EndingView::OutputOf(1),
        res@.steps[1].action == (ActionView::Run { program: "bash"@, args: seq!["/home/"@ + user@ + "/scripts/create-setup-cd.sh"@], stdout_to: None, show_output: false }),
        res@.steps[1].on_failure == OnFailureView::Continue,
{
    let steps = vec![print_lit("creating setup CD"), user_script(user, "create-setup-cd.sh"), print_lit(";")];
    let res = with_output(steps, 1);
    proof {
        assert(res@.steps =~= create_setup_cd_script(user@).steps);
    }
    proof {
        reveal_strlit("/scripts/");
        reveal_strlit("create-setup-cd.sh");
        reveal_strlit("/scripts/create-setup-cd.sh");
        assert("/home/"@ + user@ + ("/scripts/"@ + "create-setup-cd.sh"@) =~= "/home/"@ + user@ + "/scripts/create-setup-cd.sh"@);
    }
    res
}

/// The script of `copy_setup_cd`.
pub open spec fn copy_setup_cd_script(user: Seq<char>) -> ScriptView {
    message_script(
        seq![
            run_step("mkdir"@, seq!["/mnt/ramdisk/setupCD"@], ignore()),
            run_step(
                "cp"@,
                seq!["-R"@, "/media/"@ + user + "/CDROM"@, "/mnt/ramdisk"@],
                report("ERROR in copying setup CD = "@),
            ),
            run_step(
                "mv"@,
                seq!["/mnt/ramdisk/CDROM"@, "/mnt/ramdisk/setupCD"@],
                report("ERROR in copying setup CD = "@),
            ),
        ],
        "SUCCESS in coyping setup CD"@,
    )
}

/// Copies the setup CD's contents onto the ramdisk.
pub fn copy_setup_cd(user: &str) -> (res: Script)
    ensures
        res@ == copy_setup_cd_script(user@),
        well_formed(res@),
{
    let cdrom = join3("/media/", user, "/CDROM");
    let steps = vec![
        run("mkdir", args1("/mnt/ramdisk/setupCD"), ignoring()),
        run("cp", args3("-R", cdrom.as_str(), "/mnt/ramdisk"), reporting("ERROR in copying setup CD = ")),
        run("mv", args2("/mnt/ramdisk/CDROM", "/mnt/ramdisk/setupCD"), reporting("ERROR in copying setup CD = ")),
    ];
    let res = with_message(steps, "SUCCESS in coyping setup CD");
    proof {
        assert(res@.steps =~= copy_setup_cd_script(user@).steps);
    }
    res
}

/// The script of `packup`.
pub open spec fn packup_script(user: Seq<char>) -> ScriptView {
    message_script(
        seq![
            print_step("packing up sensitive info"@),
            run_step("sudo"@, seq!["rm"@, home_path(user, "/encrypted.gpg"@)], ignore()),
            run_step("sudo"@, seq!["rm"@, "/mnt/ramdisk/unecrypted.tar"@], ignore()),
            run_step(
                "tar"@,
                seq!["cvf"@, "/mnt/ramdisk/unencrypted.tar"@, "/mnt/ramdisk/sensitive"@],
                report("ERROR in packup = "@),
            ),
            run_step(
                "gpg"@,
                seq![
                    "--batch"@,
                    "--passphrase-file"@,
                    "/mnt/ramdisk/masterkey"@,
                    "--output"@,
                    home_path(user, "/encrypted.gpg"@),
                    "--symmetric"@,
                    "/mnt/ramdisk/unencrypted.tar"@,
                ],
                report("ERROR in packup = "@),
            ),
        ],
        "SUCCESS in packup"@,
    )
}

/// Packs the sensitive directory into a tarball and encrypts it with the masterkey.
pub fn packup(user: &str) -> (res: Script)
    ensures
        res@ == packup_script(user@),
        well_formed(res@),
        // the sensitive directory is archived into a tarball, and that tarball is
        // encrypted with the masterkey into the user's encrypted.gpg
        res@.steps[3].action == (ActionView::Run { program: "tar"@, args: seq!["cvf"@, "/mnt/ramdisk/unencrypted.tar"@, "/mnt/ramdisk/sensitive"@], stdout_to: None, show_output: false }),
        res@.steps[4].action == (ActionView::Run { program: "gpg"@, args: seq!["--batch"@, "--passphrase-file"@, "/mnt/ramdisk/masterkey"@, "--output"@, "/home/"@ + user@ + "/encrypted.gpg"@, "--symmetric"@, "/mnt/ramdisk/unencrypted.tar"@], stdout_to: None, show_output: false }),
        !(res@.steps[3].on_failure is Continue) && !(res@.steps[4].on_failure is Continue),
{
    let encrypted = home(user, "/encrypted.gpg");
    let steps = vec![
        print_lit("packing up sensitive info"),
        run("sudo", args2("rm", encrypted.as_str()), ignoring()),
        run("sudo", args2("rm", "/mnt/ramdisk/unecrypted.tar"), ignoring()),
        run(
            "tar",
            args3("cvf", "/mnt/ramdisk/unencrypted.tar", "/mnt/ramdisk/sensitive"),
            reporting("ERROR in packup = "),
        ),
        run(
            "gpg",
            args7(
                "--batch",
                "--passphrase-file",
                "/mnt/ramdisk/masterkey",
                "--output",
                encrypted.as_str(),
                "--symmetric",
                "/mnt/ramdisk/unencrypted.tar",
            ),
            reporting("ERROR in packup = "),
        ),
    ];
    let res = with_message(steps, "SUCCESS in packup");
    proof {
        assert(res@.steps =~= packup_script(user@).steps);
    }
    res
}

/// The script of `unpack`.
pub open spec fn unpack_script(user: Seq<char>) -> ScriptView {
    message_script(
        seq![
            print_step("unpacking sensitive info"@),
            run_step("sudo"@, seq!["rm"@, "/mnt/ramdisk/decrypted.out"@], ignore()),
            run_step(
                "gpg"@,
                seq![
                    "--batch"@,
                    "--passphrase-file"@,
                    "/mnt/ramdisk/masterkey"@,
                    "--output"@,
                    "/mnt/ramdisk/decrypted.out"@,
                    "-d"@,
                    home_path(user, "/encrypted.gpg"@),
                ],
                report("ERROR in unpack = "@),
            ),
            run_step(
                "tar"@,
                seq!["xvf"@, "/mnt/ramdisk/decrypted.out"@, "-C"@, "/mnt/ramdisk/"@],
                report("ERROR in unpack = "@),
            ),
            run_step(
                "cp"@,
                seq!["-R"@, "/mnt/ramdisk/mnt/ramdisk/sensitive"@, "/mnt/ramdisk"@],
                report("ERROR in unpack = "@),
            ),
            run_step("sudo"@, seq!["rm"@, "-r"@, "/mnt/ramdisk/mnt"@], ignore()),
        ],
        "SUCCESS in unpack"@,
    )
}

/// Decrypts the encrypted tarball and unpacks the sensitive directory onto the ramdisk.
pub fn unpack(user: &str) -> (res: Script)
    ensures
        res@ == unpack_script(user@),
        well_formed(res@),
        // the user's encrypted.gpg is decrypted with the masterkey, the tarball is
        // extracted under /mnt/ramdisk/, and the sensitive directory copied back
        res@.steps[2].action == (ActionView::Run { program: "gpg"@, args: seq!["--batch"@, "--passphrase-file"@, "/mnt/ramdisk/masterkey"@, "--output"@, "/mnt/ramdisk/decrypted.out"@, "-d"@, "/home/"@ + user@ + "/encrypted.gpg"@], stdout_to: None, show_output: false }),
        res@.steps[3].action == (ActionView::Run { program: "tar"@, args: seq!["xvf"@, "/mnt/ramdisk/decrypted.out"@, "-C"@, "/mnt/ramdisk/"@], stdout_to: None, show_output: false }),
        res@.steps[4].action == (ActionView::Run { program: "cp"@, args: seq!["-R"@, "/mnt/ramdisk/mnt/ramdisk/sensitive"@, "/mnt/ramdisk"@], stdout_to: None, show_output: false }),
{
    let encrypted = home(user, "/encrypted.gpg");
    let steps = vec![
        print_lit("unpacking sensitive info"),
        run("sudo", args2("rm", "/mnt/ramdisk/decrypted.out"), ignoring()),
        run(
            "gpg",
            args7(
                "--batch",
                "--passphrase-file",
                "/mnt/ramdisk/masterkey",
                "--output",
                "/mnt/ramdisk/decrypted.out",
                "-d",
                encrypted.as_str(),
            ),
            reporting("ERROR in unpack = "),
        ),
        run("tar", args4("xvf", "/mnt/ramdisk/decrypted.out", "-C", "/mnt/ramdisk/"), reporting("ERROR in unpack = ")),
        run(
            "cp",
            args3("-R", "/mnt/ramdisk/mnt/ramdisk/sensitive", "/mnt/ramdisk"),
            reporting("ERROR in unpack = "),
        ),
        run("sudo", args3("rm", "-r", "/mnt/ramdisk/mnt"), ignoring()),
    ];
    let res = with_message(steps, "SUCCESS in unpack");
    proof {
        assert(res@.steps =~= unpack_script(user@).steps);
    }
    res
}

/// The script of `create_ramdisk`.
pub open spec fn create_ramdisk_script() -> ScriptView {
    message_script(
        seq![
            print_step("creating ramdisk"@),
            run_step("sudo"@, seq!["mkdir"@, "/mnt/ramdisk"@], ignore()),
            run_step(
                "sudo"@,
                seq!["mount"@, "-t"@, "ramfs"@, "-o"@, "size=250M"@, "ramfs"@, "/mnt/ramdisk"@],
                report("ERROR in Creating Ramdisk = "@),
            ),
            run_step("sudo"@, seq!["chmod"@, "777"@, "/mnt/ramdisk"@], report("ERROR in Creating Ramdisk = "@)),
            run_step("mkdir"@, seq!["/mnt/ramdisk/sensitive"@], ignore()),
        ],
        "SUCCESS in Creating Ramdisk"@,
    )
}

/// Mounts a ramdisk at /mnt/ramdisk and makes its sensitive directory.
pub fn create_ramdisk() -> (res: Script)
    ensures
        res@ == create_ramdisk_script(),
        well_formed(res@),
{
    let steps = vec![
        print_lit("creating ramdisk"),
        run("sudo", args2("mkdir", "/mnt/ramdisk"), ignoring()),
        run(
            "sudo",
            args7("mount", "-t", "ramfs", "-o", "size=250M", "ramfs", "/mnt/ramdisk"),
            reporting("ERROR in Creating Ramdisk = "),
        ),
        run("sudo", args3("chmod", "777", "/mnt/ramdisk"), reporting("ERROR in Creating Ramdisk = ")),
        run("mkdir", args1("/mnt/ramdisk/sensitive"), ignoring()),
    ];
    let res = with_message(steps, "SUCCESS in Creating Ramdisk");
    proof {
        assert(res@.steps =~= create_ramdisk_script().steps);
    }
    res
}

/// A step that reads a config file and lists its entries.
pub open spec fn read_config_step(path: Seq<char>) -> StepView {
    StepView { action: ActionView::ReadConfig { path }, on_failure: ignore() }
}

fn read_config(path: &str) -> (res: Step)
    ensures
        res@ == read_config_step(path@),
{
    Step { action: Action::ReadConfig { path: path.to_owned() }, on_failure: OnFailure::Continue }
}

/// The script of `read`.
pub open spec fn read_script(config_path: Seq<char>, home_dir: Seq<char>) -> ScriptView {
    output_script(seq![print_step(home_dir), read_config_step(config_path)], 1)
}

/// Prints the home directory, then reads and lists the config file there;
/// answers the file's text (none when it cannot be read).
pub fn read(config_path: &str, home_dir: &str) -> (res: Script)
    ensures
        res@ == read_script(config_path@, home_dir@),
        well_formed(res@),
        // the answer is the text of the config file that is read
        res@.ending matches EndingView::OutputOf(k) && k < res@.steps.len()
            && res@.steps[k as int].action == (ActionView::ReadConfig { path: config_path@ }),
{
    let steps = vec![print_lit(home_dir), read_config(config_path)];
    let res = with_output(steps, 1);
    proof {
        assert(res@.steps =~= read_script(config_path@, home_dir@).steps);
    }
    res
}

/// The script of `read_cd`.
pub open spec fn read_cd_script(user: Seq<char>) -> ScriptView {
    output_script(
        seq![run_step("sleep"@, seq!["4"@], ignore()), read_config_step("/media/"@ + user + "/CDROM/config.txt"@)],
        1,
    )
}

/// Waits for the CD, then reads and lists its config file; answers its text.
pub fn read_cd(user: &str) -> (res: Script)
    ensures
        res@ == read_cd_script(user@),
        well_formed(res@),
        // the answer is the text of the config file that is read
        res@.ending matches EndingView::OutputOf(k) && k < res@.steps.len()
            && res@.steps[k as int].action == (ActionView::ReadConfig { path: "/media/"@ + user@ + "/CDROM/config.txt"@ }),
{
    let path = join3("/media/", user, "/CDROM/config.txt");
    let steps = vec![run("sleep", args1("4"), ignoring()), read_config(path.as_str())];
    let res = with_output(steps, 1);
    proof {
        assert(res@.steps =~= read_cd_script(user@).steps);
    }
    res
}

/// The script of `print_rust`.
pub open spec fn print_rust_script(data: Seq<char>) -> ScriptView {
    message_script(seq![print_step("input = "@ + data)], "completed with no problems"@)
}

/// Prints its input.
pub fn print_rust(data: &str) -> (res: Script)
    ensures
        res@ == print_rust_script(data@),
        well_formed(res@),
{
    let steps = vec![print(join("input = ", data))];
    let res = with_message(steps, "completed with no problems");
    proof {
        assert(res@.steps =~= print_rust_script(data@).steps);
    }
    res
}

/// The script of `combine_shards`.
pub open spec fn combine_shards_script(user: Seq<char>) -> ScriptView {
    output_script(
        seq![print_step("combining shards in /mnt/ramdisk/shards"@), user_script_step(user, "combine-shards.sh"@)],
        1,
    )
}

/// Runs the user's script that combines the shards; answers its output.
pub fn combine_shards(user: &str) -> (res: Script)
    ensures
        res@ == combine_shards_script(user@),
        well_formed(res@),
        // the answer is the output of the user's script
        res@.ending == EndingView::OutputOf(1),
        res@.steps[1].action == (ActionView::Run { program: "bash"@, args: seq!["/home/"@ + user@ + "/scripts/combine-shards.sh"@], stdout_to: None, show_output: false }),
        res@.steps[1].on_failure == OnFailureView::Continue,
{
    let steps = vec![print_lit("combining shards in /mnt/ramdisk/shards"), user_script(user, "combine-shards.sh")];
    let res = with_output(steps, 1);
    proof {
        assert(res@.steps =~= combine_shards_script(user@).steps);
    }
    proof {
        reveal_strlit("/scripts/");
        reveal_strlit("combine-shards.sh");
        reveal_strlit("/scripts/combine-shards.sh");
        assert("/home/"@ + user@ + ("/scripts/"@ + "combine-shards.sh"@) =~= "/home/"@ + user@ + "/scripts/combine-shards.sh"@);
    }
    res
}

/// The script of `async_write`.
pub open spec fn async_write_script(name: Seq<char>, value: Seq<char>) -> ScriptView {
    message_script(seq![set_config_step(name, value), print_step(name)], "completed with no problems"@)
}

/// Sets `name` to `value` in the config file and prints the name.
pub fn async_write(name: &str, value: &str) -> (res: Script)
    ensures
        res@ == async_write_script(name@, value@),
        well_formed(res@),
        // the entry set is the given name with the given value, and it reads back
        res@.steps[0].action == (ActionView::SetConfig { name: name@, value: value@ }),
        forall|c: Seq<char>|
            is_plain_field(name@) && is_plain_field(value@) && (#[trigger] res@.steps[0]).action is SetConfig
                ==> has_name(config_entries_of(updated_config(c, res@.steps[0].action->SetConfig_name, res@.steps[0].action->SetConfig_value)), name@)
                && forall|i: int|
                0 <= i < config_entries_of(updated_config(c, res@.steps[0].action->SetConfig_name, res@.steps[0].action->SetConfig_value)).len()
                    && (#[trigger] config_entries_of(updated_config(c, res@.steps[0].action->SetConfig_name, res@.steps[0].action->SetConfig_value))[i]).0 == name@
                    ==> config_entries_of(updated_config(c, res@.steps[0].action->SetConfig_name, res@.steps[0].action->SetConfig_value))[i].1 == value@,
{
    let steps = vec![set_config(name, value), print_lit(name)];
    let res = with_message(steps, "completed with no problems");
    proof {
        assert(res@.steps =~= async_write_script(name@, value@).steps);
    }
    proof {
        assert forall|c: Seq<char>|
            is_plain_field(name@) && is_plain_field(value@) && (#[trigger] res@.steps[0]).action is SetConfig
                implies has_name(config_entries_of(updated_config(c, res@.steps[0].action->SetConfig_name, res@.steps[0].action->SetConfig_value)), name@)
                && forall|i: int|
                0 <= i < config_entries_of(updated_config(c, res@.steps[0].action->SetConfig_name, res@.steps[0].action->SetConfig_value)).len()
                    && (#[trigger] config_entries_of(updated_config(c, res@.steps[0].action->SetConfig_name, res@.steps[0].action->SetConfig_value))[i]).0 == name@
                    ==> config_entries_of(updated_config(c, res@.steps[0].action->SetConfig_name, res@.steps[0].action->SetConfig_value))[i].1 == value@ by {
            lemma_update_config_read_back(c, name@, value@);
        }
    }
    res
}

/// The script of `mount_internal`.
pub open spec fn mount_internal_script(user: Seq<char>) -> ScriptView {
    output_script(
        seq![
            print_step("mounting internal storage and symlinking .bitcoin dirs"@),
            user_script_step(user, "mount-internal.sh"@),
        ],
        1,
    )
}

/// Runs the user's script that mounts internal storage; answers its output.
pub fn mount_internal(user: &str) -> (res: Script)
    ensures
        res@ == mount_internal_script(user@),
        well_formed(res@),
        // the answer is the output of the user's script
        res@.ending == EndingView::OutputOf(1),
        res@.steps[1].action == (ActionView::Run { program: "bash"@, args: seq!["/home/"@ + user@ + "/scripts/mount-internal.sh"@], stdout_to: None, show_output: false }),
        res@.steps[1].on_failure == OnFailureView::Continue,
{
    let steps = vec![
        print_lit("mounting internal storage and symlinking .bitcoin dirs"),
        user_script(user, "mount-internal.sh"),
    ];
    let res = with_output(steps, 1);
    proof {
        assert(res@.steps =~= mount_internal_script(user@).steps);
    }
    proof {
        reveal_strlit("/scripts/");
        reveal_strlit("mount-internal.sh");
        reveal_strlit("/scripts/mount-internal.sh");
        assert("/home/"@ + user@ + ("/scripts/"@ + "mount-internal.sh"@) =~= "/home/"@ + user@ + "/scripts/mount-internal.sh"@);
    }
    res
}

/// The script of `install_sd_deps`.
pub open spec fn install_sd_deps_script() -> ScriptView {
    let fail = report("ERROR in installing SD dependencies = "@);
    message_script(
        seq![
            print_step("installing deps required by SD card"@),
            run_step("sudo"@, seq!["add-apt-repository"@, "-y"@, "universe"@], fail),
            run_step("sudo"@, seq!["apt"@, "update"@], fail),
            run_step("sudo"@, seq!["apt"@, "install"@, "-y"@, "wodim"@], fail),
            run_step("sudo"@, seq!["apt"@, "install"@, "ssss"@], fail),
        ],
        "SUCCESS in installing SD dependencies"@,
    )
}

/// Installs the packages every SD card needs.
pub fn install_sd_deps() -> (res: Script)
    ensures
        res@ == install_sd_deps_script(),
        well_formed(res@),
{
    let fail = "ERROR in installing SD dependencies = ";
    let steps = vec![
        print_lit("installing deps required by SD card"),
        run("sudo", args3("add-apt-repository", "-y", "universe"), reporting(fail)),
        run("sudo", args2("apt", "update"), reporting(fail)),
        run("sudo", args4("apt", "install", "-y", "wodim"), reporting(fail)),
        run("sudo", args3("apt", "install", "ssss"), reporting(fail)),
    ];
    let res = with_message(steps, "SUCCESS in installing SD dependencies");
    proof {
        assert(res@.steps =~= install_sd_deps_script().steps);
    }
    res
}

/// The script of `refresh_setup_cd`.
pub open spec fn refresh_setup_cd_script() -> ScriptView {
    message_script(
        seq![
            run_step(
                "genisoimage"@,
                seq!["-r"@, "-J"@, "-o"@, "/mnt/ramdisk/setupCD.iso"@, "/mnt/ramdisk/setupCD"@],
                report("ERROR refreshing setupCD with genisoimage = "@),
            ),
            run_step("sudo"@, seq!["umount"@, "/dev/sr0"@], ignore()),
            run_step(
                "wodim"@,
                seq!["-v"@, "dev=/dev/sr0"@, "blank=fast"@],
                report("ERROR refreshing setupCD with wiping CD = "@),
            ),
            run_step(
                "wodim"@,
                seq!["dev=/dev/sr0"@, "-v"@, "-data"@, "/mnt/ramdisk/setupCD.iso"@],
                report("ERROR in refreshing setupCD with burning iso = "@),
            ),
            run_step("eject"@, seq!["/dev/sr0"@], report("ERROR in refreshing setupCD with ejecting CD = "@)),
        ],
        "SUCCESS in refreshing setupCD"@,
    )
}

/// Makes an image of the setup directory, wipes the CD, burns the image and ejects it.
pub fn refresh_setup_cd() -> (res: Script)
    ensures
        res@ == refresh_setup_cd_script(),
        well_formed(res@),
{
    let steps = vec![
        run(
            "genisoimage",
            args5("-r", "-J", "-o", "/mnt/ramdisk/setupCD.iso", "/mnt/ramdisk/setupCD"),
            reporting("ERROR refreshing setupCD with genisoimage = "),
        ),
        run("sudo", args2("umount", "/dev/sr0"), ignoring()),
        run(
            "wodim",
            args3("-v", "dev=/dev/sr0", "blank=fast"),
            reporting("ERROR refreshing setupCD with wiping CD = "),
        ),
        run(
            "wodim",
            args4("dev=/dev/sr0", "-v", "-data", "/mnt/ramdisk/setupCD.iso"),
            reporting("ERROR in refreshing setupCD with burning iso = "),
        ),
        run("eject", args1("/dev/sr0"), reporting("ERROR in refreshing setupCD with ejecting CD = ")),
    ];
    let res = with_message(steps, "SUCCESS in refreshing setupCD");
    proof {
        assert(res@.steps =~= refresh_setup_cd_script().steps);
    }
    res
}

/// Copying a shard from the setup CD into the user's shards directory.
pub open spec fn copy_shard_step(user: Seq<char>, shard: Seq<char>, sd: Seq<char>) -> StepView {
    run_step(
        "cp"@,
        seq!["/mnt/ramdisk/setupCD/shards/"@ + shard, "/home"@ + user + "/shards"@],
        report("ERROR in distributing shards to sd"@ + sd + " = "@),
    )
}

fn copy_shard(user: &str, shard: &str, sd: &str) -> (res: Step)
    ensures
        res@ == copy_shard_step(user@, shard@, sd@),
{
    let from = join("/mnt/ramdisk/setupCD/shards/", shard);
    let to = join3("/home", user, "/shards");
    let fail = join3("ERROR in distributing shards to sd", sd, " = ");
    run("cp", args2(from.as_str(), to.as_str()), OnFailure::Report(fail))
}

fn distribute_message(sd: &str) -> (res: String)
    ensures
        res@ == "SUCCESS in distributing shards to SD "@ + sd@,
{
    join("SUCCESS in distributing shards to SD ", sd)
}

/// The script of `distribute_shards_sd2`.
pub open spec fn distribute_shards_sd2_script(user: Seq<char>) -> ScriptView {
    message_script(
        seq![
            copy_shard_step(user, "shard2.txt"@, "2"@),
            copy_shard_step(user, "shard10.txt"@, "2"@),
        ],
        "SUCCESS in distributing shards to SD "@ + "2"@,
    )
}

/// Copies shard2.txt and shard10.txt from the setup CD into the user's shards directory.
pub fn distribute_shards_sd2(user: &str) -> (res: Script)
    ensures
        res@ == distribute_shards_sd2_script(user@),
        well_formed(res@),
{
    let steps = vec![
        copy_shard(user, "shard2.txt", "2"),
        copy_shard(user, "shard10.txt", "2"),
    ];
    let message = distribute_message("2");
    let res = Script { steps, ending: Ending::Message(message) };
    proof {
        assert(res@.steps =~= distribute_shards_sd2_script(user@).steps);
    }
    res
}

/// The script of `distribute_shards_sd3`.
pub open spec fn distribute_shards_sd3_script(user: Seq<char>) -> ScriptView {
    message_script(
        seq![
            copy_shard_step(user, "shard3.txt"@, "3"@),
            copy_shard_step(user, "shard9.txt"@, "3"@),
        ],
        "SUCCESS in distributing shards to SD "@ + "3"@,
    )
}

/// Copies shard3.txt and shard9.txt from the setup CD into the user's shards directory.
pub fn distribute_shards_sd3(user: &str) -> (res: Script)
    ensures
        res@ == distribute_shards_sd3_script(user@),
        well_formed(res@),
{
    let steps = vec![
        copy_shard(user, "shard3.txt", "3"),
        copy_shard(user, "shard9.txt", "3"),
    ];
    let message = distribute_message("3");
    let res = Script { steps, ending: Ending::Message(message) };
    proof {
        assert(res@.steps =~= distribute_shards_sd3_script(user@).steps);
    }
    res
}

/// The script of `distribute_shards_sd4`.
pub open spec fn distribute_shards_sd4_script(user: Seq<char>) -> ScriptView {
    message_script(
        seq![
            copy_shard_step(user, "shard4.txt"@, "4"@),
            copy_shard_step(user, "shard8.txt"@, "4"@),
        ],
        "SUCCESS in distributing shards to SD "@ + "4"@,
    )
}

/// Copies shard4.txt and shard8.txt from the setup CD into the user's shards directory.
pub fn distribute_shards_sd4(user: &str) -> (res: Script)
    ensures
        res@ == distribute_shards_sd4_script(user@),
        well_formed(res@),
{
    let steps = vec![
        copy_shard(user, "shard4.txt", "4"),
        copy_shard(user, "shard8.txt", "4"),
    ];
    let message = distribute_message("4");
    let res = Script { steps, ending: Ending::Message(message) };
    proof {
        assert(res@.steps =~= distribute_shards_sd4_script(user@).steps);
    }
    res
}

/// The script of `distribute_shards_sd5`.
pub open spec fn distribute_shards_sd5_script(user: Seq<char>) -> ScriptView {
    message_script(
        seq![
            copy_shard_step(user, "shard5.txt"@, "5"@),
        ],
        "SUCCESS in distributing shards to SD "@ + "5"@,
    )
}

/// Copies shard5.txt from the setup CD into the user's shards directory.
pub fn distribute_shards_sd5(user: &str) -> (res: Script)
    ensures
        res@ == distribute_shards_sd5_script(user@),
        well_formed(res@),
{
    let steps = vec![
        copy_shard(user, "shard5.txt", "5"),
    ];
    let message = distribute_message("5");
    let res = Script { steps, ending: Ending::Message(message) };
    proof {
        assert(res@.steps =~= distribute_shards_sd5_script(user@).steps);
    }
    res
}

/// The script of `distribute_shards_sd6`.
pub open spec fn distribute_shards_sd6_script(user: Seq<char>) -> ScriptView {
    message_script(
        seq![
            copy_shard_step(user, "shard6.txt"@, "6"@),
        ],
        "SUCCESS in distributing shards to SD "@ + "6"@,
    )
}

/// Copies shard6.txt from the setup CD into the user's shards directory.
pub fn distribute_shards_sd6(user: &str) -> (res: Script)
    ensures
        res@ == distribute_shards_sd6_script(user@),
        well_formed(res@),
{
    let steps = vec![
        copy_shard(user, "shard6.txt", "6"),
    ];
    let message = distribute_message("6");
    let res = Script { steps, ending: Ending::Message(message) };
    proof {
        assert(res@.steps =~= distribute_shards_sd6_script(user@).steps);
    }
    res
}

/// The script of `distribute_shards_sd7`.
pub open spec fn distribute_shards_sd7_script(user: Seq<char>) -> ScriptView {
    message_script(
        seq![
            copy_shard_step(user, "shard7.txt"@, "7"@),
        ],
        "SUCCESS in distributing shards to SD "@ + "7"@,
    )
}

/// Copies shard7.txt from the setup CD into the user's shards directory.
pub fn distribute_shards_sd7(user: &str) -> (res: Script)
    ensures
        res@ == distribute_shards_sd7_script(user@),
        well_formed(res@),
{
    let steps = vec![
        copy_shard(user, "shard7.txt", "7"),
    ];
    let message = distribute_message("7");
    let res = Script { steps, ending: Ending::Message(message) };
    proof {
        assert(res@.steps =~= distribute_shards_sd7_script(user@).steps);
    }
    res
}

/// The script of `create_descriptor`.
pub open spec fn create_descriptor_script(user: Seq<char>) -> ScriptView {
    output_script(
        seq![print_step("creating descriptor from 7 xpubs"@), user_script_step(user, "create-descriptor.sh"@)],
        1,
    )
}

/// Runs the user's script that creates the wallet descriptor; answers its output.
pub fn create_descriptor(user: &str) -> (res: Script)
    ensures
        res@ == create_descriptor_script(user@),
        well_formed(res@),
        // the answer is the output of the user's script
        res@.ending == EndingView::OutputOf(1),
        res@.steps[1].action == (ActionView::Run { program: "bash"@, args: seq!["/home/"@ + user@ + "/scripts/create-descriptor.sh"@], stdout_to: None, show_output: false }),
        res@.steps[1].on_failure == OnFailureView::Continue,
{
    let steps = vec![print_lit("creating descriptor from 7 xpubs"), user_script(user, "create-descriptor.sh")];
    let res = with_output(steps, 1);
    proof {
        assert(res@.steps =~= create_descriptor_script(user@).steps);
    }
    proof {
        reveal_strlit("/scripts/");
        reveal_strlit("create-descriptor.sh");
        reveal_strlit("/scripts/create-descriptor.sh");
        assert("/home/"@ + user@ + ("/scripts/"@ + "create-descriptor.sh"@) =~= "/home/"@ + user@ + "/scripts/create-descriptor.sh"@);
    }
    res
}

/// The script of `copy_descriptor`.
pub open spec fn copy_descriptor_script() -> ScriptView {
    message_script(
        seq![
            StepView {
                action: ActionView::CopyFile {
                    from: "/mnt/ramdisk/setupCD/descriptor.txt"@,
                    to: "/mnt/ramdisk/sensitive/descriptor.txt"@,
                },
                on_failure: ignore(),
            },
        ],
        "completed with no problems"@,
    )
}

/// Copies the descriptor from the setup CD into the sensitive directory,
/// whatever the outcome.
pub fn copy_descriptor() -> (res: Script)
    ensures
        res@ == copy_descriptor_script(),
        well_formed(res@),
{
    let copy = Step {
        action: Action::CopyFile {
            from: lit("/mnt/ramdisk/setupCD/descriptor.txt"),
            to: lit("/mnt/ramdisk/sensitive/descriptor.txt"),
        },
        on_failure: OnFailure::Continue,
    };
    let steps = vec![copy];
    let res = with_message(steps, "completed with no problems");
    proof {
        assert(res@.steps =~= copy_descriptor_script().steps);
    }
    res
}

/// The script of `extract_masterkey`.
pub open spec fn extract_masterkey_script() -> ScriptView {
    message_script(
        seq![
            run_step(
                "cp"@,
                seq!["/mnt/ramdisk/setupCD/masterkey"@, "/mnt/ramdisk"@],
                report("ERROR in extracting masterkey = "@),
            ),
        ],
        "SUCCESS in extracting masterkey"@,
    )
}

/// Copies the masterkey from the setup CD to the ramdisk.
pub fn extract_masterkey() -> (res: Script)
    ensures
        res@ == extract_masterkey_script(),
        well_formed(res@),
{
    let steps = vec![
        run(
            "cp",
            args2("/mnt/ramdisk/setupCD/masterkey", "/mnt/ramdisk"),
            reporting("ERROR in extracting masterkey = "),
        ),
    ];
    let res = with_message(steps, "SUCCESS in extracting masterkey");
    proof {
        assert(res@.steps =~= extract_masterkey_script().steps);
    }
    res
}

/// The image file of an SD card's backup.
pub open spec fn backup_image(number: Seq<char>) -> Seq<char> {
    "/mnt/ramdisk/backup"@ + number + ".iso"@
}

/// The script of `create_backup`.
pub open spec fn create_backup_script(user: Seq<char>, number: Seq<char>) -> ScriptView {
    message_script(
        seq![
            print_step("creating backup directory of the current SD"@),
            run_step("mkdir"@, seq!["/mnt/ramdisk/backup"@], ignore()),
            run_step(
                "cp"@,
                seq!["-r"@, home_path(user, "/shards"@), "/mnt/ramdisk/backup"@],
                report("ERROR in creating backup with copying shards = "@),
            ),
            run_step(
                "cp"@,
                seq![home_path(user, "/encrypted.gpg"@), "/mnt/ramdisk/backup"@],
                report("ERROR in creating backup with copying sensitive dir= "@),
            ),
            run_step(
                "cp"@,
                seq![home_path(user, "/config.txt"@), "/mnt/ramdisk/backup"@],
                report("ERROR in creating backup with copying config.txt= "@),
            ),
            run_step(
                "genisoimage"@,
                seq!["-r"@, "-J"@, "-o"@, backup_image(number), "/mnt/ramdisk/backup"@],
                report("ERROR in creating backup with creating iso= "@),
            ),
        ],
        "SUCCESS in creating backup of current SD"@,
    )
}

/// Gathers the shards, the encrypted directory and the config of the current
/// SD card into a backup directory, and makes an image of it.
pub fn create_backup(user: &str, number: &str) -> (res: Script)
    ensures
        res@ == create_backup_script(user@, number@),
        well_formed(res@),
{
    let shards = home(user, "/shards");
    let encrypted = home(user, "/encrypted.gpg");
    let config = home(user, "/config.txt");
    let image = join3("/mnt/ramdisk/backup", number, ".iso");
    let steps = vec![
        print_lit("creating backup directory of the current SD"),
        run("mkdir", args1("/mnt/ramdisk/backup"), ignoring()),
        run(
            "cp",
            args3("-r", shards.as_str(), "/mnt/ramdisk/backup"),
            reporting("ERROR in creating backup with copying shards = "),
        ),
        run(
            "cp",
            args2(encrypted.as_str(), "/mnt/ramdisk/backup"),
            reporting("ERROR in creating backup with copying sensitive dir= "),
        ),
        run(
            "cp",
            args2(config.as_str(), "/mnt/ramdisk/backup"),
            reporting("ERROR in creating backup with copying config.txt= "),
        ),
        run(
            "genisoimage",
            args5("-r", "-J", "-o", image.as_str(), "/mnt/ramdisk/backup"),
            reporting("ERROR in creating backup with creating iso= "),
        ),
    ];
    let res = with_message(steps, "SUCCESS in creating backup of current SD");
    proof {
        assert(res@.steps =~= create_backup_script(user@, number@).steps);
    }
    res
}

/// The script of `make_backup`.
pub open spec fn make_backup_script(number: Seq<char>) -> ScriptView {
    message_script(
        seq![
            print_step("making backup iso of the current SD and burning to CD"@),
            run_step("sleep"@, seq!["4"@], ignore()),
            run_step("sudo"@, seq!["umount"@, "/dev/sr0"@], ignore()),
            run_step(
                "wodim"@,
                seq!["-v"@, "dev=/dev/sr0"@, "blank=fast"@],
                report("ERROR in making backup with wiping CD = "@),
            ),
            run_step(
                "wodim"@,
                seq!["dev=/dev/sr0"@, "-v"@, "-data"@, backup_image(number)],
                report("ERROR in making backup with burning iso to CD = "@),
            ),
            run_step("eject"@, seq!["/dev/sr0"@], report("ERROR in refreshing setupCD with ejecting CD = "@)),
        ],
        "SUCCESS in making backup of current SD"@,
    )
}

/// Wipes the CD, burns the SD card's backup image onto it and ejects it.
pub fn make_backup(number: &str) -> (res: Script)
    ensures
        res@ == make_backup_script(number@),
        well_formed(res@),
{
    let image = join3("/mnt/ramdisk/backup", number, ".iso");
    let steps = vec![
        print_lit("making backup iso of the current SD and burning to CD"),
        run("sleep", args1("4"), ignoring()),
        run("sudo", args2("umount", "/dev/sr0"), ignoring()),
        run("wodim", args3("-v", "dev=/dev/sr0", "blank=fast"), reporting("ERROR in making backup with wiping CD = ")),
        run(
            "wodim",
            args4("dev=/dev/sr0", "-v", "-data", image.as_str()),
            reporting("ERROR in making backup with burning iso to CD = "),
        ),
        run("eject", args1("/dev/sr0"), reporting("ERROR in refreshing setupCD with ejecting CD = ")),
    ];
    let res = with_message(steps, "SUCCESS in making backup of current SD");
    proof {
        assert(res@.steps =~= make_backup_script(number@).steps);
    }
    res
}

/// The script of `start_bitcoind`.
pub open spec fn start_bitcoind_script(user: Seq<char>) -> ScriptView {
    message_script(
        seq![
            print_step("starting the bitcoin daemon"@),
            run_step(
                "bash"@,
                seq![home_path(user, "/bitcoin-23.0/bin/bitcoind"@)],
                report("ERROR in starting bitcoin daemon = "@),
            ),
        ],
        "SUCCESS in starting bitcoin daemon"@,
    )
}

/// Starts the bitcoin daemon.
pub fn start_bitcoind(user: &str) -> (res: Script)
    ensures
        res@ == start_bitcoind_script(user@),
        well_formed(res@),
{
    let daemon = home(user, "/bitcoin-23.0/bin/bitcoind");
    let steps = vec![
        print_lit("starting the bitcoin daemon"),
        run("bash", args1(daemon.as_str()), reporting("ERROR in starting bitcoin daemon = ")),
    ];
    let res = with_message(steps, "SUCCESS in starting bitcoin daemon");
    proof {
        assert(res@.steps =~= start_bitcoind_script(user@).steps);
    }
    res
}

/// The script of `start_bitcoind_network_off`.
pub open spec fn start_bitcoind_network_off_script(user: Seq<char>) -> ScriptView {
    message_script(
        seq![
            print_step("starting the bitcoin daemon with networking disabled"@),
            run_step(
                "bash"@,
                seq![home_path(user, "/bitcoin-23.0/bin/bitcoind"@), "-networkactive=0"@],
                report("ERROR in starting bitcoin daemon with networking disabled = "@),
            ),
        ],
        "SUCCESS in starting bitcoin daemon with networking disabled"@,
    )
}

/// Starts the bitcoin daemon with networking disabled.
pub fn start_bitcoind_network_off(user: &str) -> (res: Script)
    ensures
        res@ == start_bitcoind_network_off_script(user@),
        well_formed(res@),
{
    let daemon = home(user, "/bitcoin-23.0/bin/bitcoind");
    let steps = vec![
        print_lit("starting the bitcoin daemon with networking disabled"),
        run(
            "bash",
            args2(daemon.as_str(), "-networkactive=0"),
            reporting("ERROR in starting bitcoin daemon with networking disabled = "),
        ),
    ];
    let res = with_message(steps, "SUCCESS in starting bitcoin daemon with networking disabled");
    proof {
        assert(res@.steps =~= start_bitcoind_network_off_script(user@).steps);
    }
    res
}

/// A step that checks that something exists at a path, and stops the script
/// with `missing` when nothing does.
pub open spec fn check_exists_step(path: Seq<char>, missing: Seq<char>) -> StepView {
    StepView { action: ActionView::CheckExists { path }, on_failure: OnFailureView::Stop(missing) }
}

fn check_exists(path: &str, missing: &str) -> (res: Step)
    ensures
        res@ == check_exists_step(path@, missing@),
{
    Step { action: Action::CheckExists { path: path.to_owned() }, on_failure: OnFailure::Stop(missing.to_owned()) }
}

/// The script of `check_for_masterkey`.
pub open spec fn check_for_masterkey_script() -> ScriptView {
    message_script(
        seq![
            print_step("checking ramdisk for masterkey"@),
            check_exists_step("/mnt/ramdisk/masterkey"@, "key not found"@),
        ],
        "masterkey found"@,
    )
}

/// Answers whether the masterkey is on the ramdisk.
pub fn check_for_masterkey() -> (res: Script)
    ensures
        res@ == check_for_masterkey_script(),
        well_formed(res@),
{
    let steps = vec![
        print_lit("checking ramdisk for masterkey"),
        check_exists("/mnt/ramdisk/masterkey", "key not found"),
    ];
    let res = with_message(steps, "masterkey found");
    proof {
        assert(res@.steps =~= check_for_masterkey_script().steps);
    }
    res
}

/// The script of `retrieve_masterkey`.
pub open spec fn retrieve_masterkey_script(user: Seq<char>) -> ScriptView {
    let key = "/media/"@ + user + "/CDROM/masterkey"@;
    message_script(
        seq![
            print_step("checking transferCD for masterkey"@),
            check_exists_step(key, "key not found"@),
            run_step("cp"@, seq![key, "/mnt/ramdisk"@], report("ERROR in retrieving masterkey = "@)),
        ],
        "masterkey found"@,
    )
}

/// Copies the masterkey from the transfer CD to the ramdisk, when the CD has one.
pub fn retrieve_masterkey(user: &str) -> (res: Script)
    ensures
        res@ == retrieve_masterkey_script(user@),
        well_formed(res@),
{
    let key = join3("/media/", user, "/CDROM/masterkey");
    let steps = vec![
        print_lit("checking transferCD for masterkey"),
        check_exists(key.as_str(), "key not found"),
        run("cp", args2(key.as_str(), "/mnt/ramdisk"), reporting("ERROR in retrieving masterkey = ")),
    ];
    let res = with_message(steps, "masterkey found");
    proof {
        assert(res@.steps =~= retrieve_masterkey_script(user@).steps);
    }
    res
}

/// The script of `create_recovery_cd`.
pub open spec fn create_recovery_cd_script(user: Seq<char>) -> ScriptView {
    output_script(
        seq![
            print_step("creating recovery CD for manual decrypting"@),
            user_script_step(user, "create-recovery-cd.sh"@),
        ],
        1,
    )
}

/// Runs the user's script that creates the recovery CD; answers its output.
pub fn create_recovery_cd(user: &str) -> (res: Script)
    ensures
        res@ == create_recovery_cd_script(user@),
        well_formed(res@),
        // the answer is the output of the user's script
        res@.ending == EndingView::OutputOf(1),
        res@.steps[1].action == (ActionView::Run { program: "bash"@, args: seq!["/home/"@ + user@ + "/scripts/create-recovery-cd.sh"@], stdout_to: None, show_output: false }),
        res@.steps[1].on_failure == OnFailureView::Continue,
{
    let steps = vec![
        print_lit("creating recovery CD for manual decrypting"),
        user_script(user, "create-recovery-cd.sh"),
    ];
    let res = with_output(steps, 1);
    proof {
        assert(res@.steps =~= create_recovery_cd_script(user@).steps);
    }
    proof {
        reveal_strlit("/scripts/");
        reveal_strlit("create-recovery-cd.sh");
        reveal_strlit("/scripts/create-recovery-cd.sh");
        assert("/home/"@ + user@ + ("/scripts/"@ + "create-recovery-cd.sh"@) =~= "/home/"@ + user@ + "/scripts/create-recovery-cd.sh"@);
    }
    res
}

/// The script of `copy_recovery_cd`.
pub open spec fn copy_recovery_cd_script(user: Seq<char>) -> ScriptView {
    output_script(
        seq![
            run_step("mkdir"@, seq!["/mnt/ramdisk/shards"@], ignore()),
            user_script_step(user, "copy-recovery-cd.sh"@),
            print_step(";"@),
        ],
        1,
    )
}

/// Makes the shards directory and runs the user's script that copies the
/// recovery CD; answers its output.
pub fn copy_recovery_cd(user: &str) -> (res: Script)
    ensures
        res@ == copy_recovery_cd_script(user@),
        well_formed(res@),
        // the answer is the output of the user's script
        res@.ending == EndingView::OutputOf(1),
        res@.steps[1].action == (ActionView::Run { program: "bash"@, args: seq!["/home/"@ + user@ + "/scripts/copy-recovery-cd.sh"@], stdout_to: None, show_output: false }),
        res@.steps[1].on_failure == OnFailureView::Continue,
{
    let steps = vec![
        run("mkdir", args1("/mnt/ramdisk/shards"), ignoring()),
        user_script(user, "copy-recovery-cd.sh"),
        print_lit(";"),
    ];
    let res = with_output(steps, 1);
    proof {
        assert(res@.steps =~= copy_recovery_cd_script(user@).steps);
    }
    proof {
        reveal_strlit("/scripts/");
        reveal_strlit("copy-recovery-cd.sh");
        reveal_strlit("/scripts/copy-recovery-cd.sh");
        assert("/home/"@ + user@ + ("/scripts/"@ + "copy-recovery-cd.sh"@) =~= "/home/"@ + user@ + "/scripts/copy-recovery-cd.sh"@);
    }
    res
}

/// The directory whose entries `calculate_number_of_shards_cd` counts.
pub fn calculate_number_of_shards_cd(user: &str) -> (res: String)
    ensures
        res@ == "/media/"@ + user@ + "/CDROM/shards"@,
{
    join3("/media/", user, "/CDROM/shards")
}

/// The directory whose entries `calculate_number_of_shards_ramdisk` counts.
pub fn calculate_number_of_shards_ramdisk() -> (res: String)
    ensures
        res@ == "/mnt/ramdisk/transferCD/shards"@,
{
    lit("/mnt/ramdisk/transferCD/shards")
}

/// The script of `collect_shards`.
pub open spec fn collect_shards_script(user: Seq<char>) -> ScriptView {
    let wipe = "ERROR converting to transfer CD with wiping CD = "@;
    message_script(
        seq![
            print_step("collecting shards"@),
            run_step("mkdir"@, seq!["--parents"@, "/mnt/ramdisk/transferCD/shards"@], ignore()),
            run_step(
                "cp"@,
                seq!["-R"@, "/media/"@ + user + "/CDROM"@, "/mnt/ramdisk"@],
                report("ERROR in collecting shards with copying CDROM contents = "@),
            ),
            run_step(
                "mv"@,
                seq!["/mnt/ramdisk/CDROM"@, "/mnt/ramdisk/transferCD"@],
                report("ERROR collecting shards with moving CDROM contents = "@),
            ),
            run_to_file_step(
                "echo"@,
                seq!["type=transfercd"@],
                "/mnt/ramdisk/transferCD/config.txt"@,
                report("ERROR in converting to transfer CD, with creating config = "@),
            ),
            run_step(
                "genisoimage"@,
                seq!["-r"@, "-J"@, "-o"@, "/mnt/ramdisk/transferCD.iso"@, "/mnt/ramdisk/transferCD"@],
                report(wipe),
            ),
            run_step("sudo"@, seq!["umount"@, "/dev/sr0"@], ignore()),
            run_step("wodim"@, seq!["-v"@, "dev=/dev/sr0"@, "blank=fast"@], report(wipe)),
            run_step("wodim"@, seq!["dev=/dev/sr0"@, "-v"@, "-data"@, "/mnt/ramdisk/transferCD.iso"@], ignore()),
            run_step("wodim"@, seq!["-v"@, "dev=/dev/sr0"@, "blank=fast"@], report(wipe)),
            run_step("eject"@, seq!["/dev/sr0"@], report("ERROR in refreshing setupCD with ejecting CD = "@)),
        ],
        "SUCCESS in collecting shards"@,
    )
}

/// Stages the CD's contents as a transfer CD with its config, makes an image,
/// and burns it (then wipes the CD again, as the steps stand) and ejects it.
pub fn collect_shards(user: &str) -> (res: Script)
    ensures
        res@ == collect_shards_script(user@),
        well_formed(res@),
{
    let wipe = "ERROR converting to transfer CD with wiping CD = ";
    let cdrom = join3("/media/", user, "/CDROM");
    let steps = vec![
        print_lit("collecting shards"),
        run("mkdir", args2("--parents", "/mnt/ramdisk/transferCD/shards"), ignoring()),
        run(
            "cp",
            args3("-R", cdrom.as_str(), "/mnt/ramdisk"),
            reporting("ERROR in collecting shards with copying CDROM contents = "),
        ),
        run(
            "mv",
            args2("/mnt/ramdisk/CDROM", "/mnt/ramdisk/transferCD"),
            reporting("ERROR collecting shards with moving CDROM contents = "),
        ),
        run_to_file(
            "echo",
            args1("type=transfercd"),
            "/mnt/ramdisk/transferCD/config.txt",
            reporting("ERROR in converting to transfer CD, with creating config = "),
        ),
        run(
            "genisoimage",
            args5("-r", "-J", "-o", "/mnt/ramdisk/transferCD.iso", "/mnt/ramdisk/transferCD"),
            reporting(wipe),
        ),
        run("sudo", args2("umount", "/dev/sr0"), ignoring()),
        run("wodim", args3("-v", "dev=/dev/sr0", "blank=fast"), reporting(wipe)),
        run("wodim", args4("dev=/dev/sr0", "-v", "-data", "/mnt/ramdisk/transferCD.iso"), ignoring()),
        run("wodim", args3("-v", "dev=/dev/sr0", "blank=fast"), reporting(wipe)),
        run("eject", args1("/dev/sr0"), reporting("ERROR in refreshing setupCD with ejecting CD = ")),
    ];
    let res = with_message(steps, "SUCCESS in collecting shards");
    proof {
        assert(res@.steps =~= collect_shards_script(user@).steps);
    }
    res
}

/// The script of `convert_to_transfer_cd`.
pub open spec fn convert_to_transfer_cd_script() -> ScriptView {
    message_script(
        seq![
            print_step("converting completed recovery cd to transfer cd with masterkey"@),
            run_step("mkdir"@, seq!["/mnt/ramdisk/transferCD"@], ignore()),
            run_to_file_step(
                "echo"@,
                seq!["type=transfercd"@],
                "/mnt/ramdisk/transferCD/config.txt"@,
                report("ERROR in converting to transfer CD, with creating config = "@),
            ),
            run_step(
                "cp"@,
                seq!["/mnt/ramdisk/masterkey"@, "/mnt/ramdisk/transferCD"@],
                report("ERROR in coverting to transfer CD, with copying masterkey = "@),
            ),
            run_step(
                "genisoimage"@,
                seq!["-r"@, "-J"@, "-o"@, "/mnt/ramdisk/transferCD.iso"@, "/mnt/ramdisk/transferCD"@],
                report("ERROR in converting to transfer CD, with copying masterkey = "@),
            ),
            run_step("sudo"@, seq!["umount"@, "/dev/sr0"@], ignore()),
            run_step(
                "wodim"@,
                seq!["-v"@, "dev=/dev/sr0"@, "blank=fast"@],
                report("ERROR converting to transfer CD with wiping CD = "@),
            ),
            run_step(
                "wodim"@,
                seq!["dev=/dev/sr0"@, "-v"@, "-data"@, "/mnt/ramdisk/transferCD/iso"@],
                report("ERROR refreshing setupCD with wiping CD = "@),
            ),
            run_step("eject"@, seq!["/dev/sr0"@], report("ERROR in refreshing setupCD with ejecting CD = "@)),
        ],
        "SUCCESS in converting to transfer CD"@,
    )
}

/// Builds a transfer CD holding the masterkey: its config, the key, an image
/// of it, burnt onto the wiped CD, which is then ejected.
pub fn convert_to_transfer_cd() -> (res: Script)
    ensures
        res@ == convert_to_transfer_cd_script(),
        well_formed(res@),
{
    let steps = vec![
        print_lit("converting completed recovery cd to transfer cd with masterkey"),
        run("mkdir", args1("/mnt/ramdisk/transferCD"), ignoring()),
        run_to_file(
            "echo",
            args1("type=transfercd"),
            "/mnt/ramdisk/transferCD/config.txt",
            reporting("ERROR in converting to transfer CD, with creating config = "),
        ),
        run(
            "cp",
            args2("/mnt/ramdisk/masterkey", "/mnt/ramdisk/transferCD"),
            reporting("ERROR in coverting to transfer CD, with copying masterkey = "),
        ),
        run(
            "genisoimage",
            args5("-r", "-J", "-o", "/mnt/ramdisk/transferCD.iso", "/mnt/ramdisk/transferCD"),
            reporting("ERROR in converting to transfer CD, with copying masterkey = "),
        ),
        run("sudo", args2("umount", "/dev/sr0"), ignoring()),
        run(
            "wodim",
            args3("-v", "dev=/dev/sr0", "blank=fast"),
            reporting("ERROR converting to transfer CD with wiping CD = "),
        ),
        run(
            "wodim",
            args4("dev=/dev/sr0", "-v", "-data", "/mnt/ramdisk/transferCD/iso"),
            reporting("ERROR refreshing setupCD with wiping CD = "),
        ),
        run("eject", args1("/dev/sr0"), reporting("ERROR in refreshing setupCD with ejecting CD = ")),
    ];
    let res = with_message(steps, "SUCCESS in converting to transfer CD");
    proof {
        assert(res@.steps =~= convert_to_transfer_cd_script().steps);
    }
    res
}

/// The user's name in a home directory path: its piece after the second `/`
/// (`/home/<user>`), when the path has one.
pub fn get_user(home_dir: &str) -> (res: Option<String>)
    ensures
        split(home_dir@, '/').len() > 2 <==> res is Some,
        res matches Some(u) ==> u@ == split(home_dir@, '/')[2],
{
    let pieces = split_on(home_dir, '/');
    if pieces.len() > 2 {
        proof {
            assert(views(pieces@)[2] == pieces@[2]@);
        }
        Some(pieces[2].clone())
    } else {
        None
    }
}

/// A step that writes bytes into a new file and reports a failure to create it.
pub open spec fn write_file_step(path: Seq<char>, bytes: Seq<u8>, prefix: Seq<char>) -> StepView {
    StepView { action: ActionView::WriteFile { path, bytes }, on_failure: report(prefix) }
}

/// Storing a private key: its secret bytes written into a new file.
pub fn store_private_key(private_key: &PrivateKey, file_name: &str) -> (res: Action)
    ensures
        res@ == (ActionView::WriteFile { path: file_name@, bytes: private_key@.secret }),
{
    Action::WriteFile { path: file_name.to_owned(), bytes: private_key.to_bytes() }
}

/// Storing a public key: its serialization written into a new file.
pub fn store_public_key(public_key: &PublicKey, file_name: &str) -> (res: Action)
    ensures
        res@ == (ActionView::WriteFile { path: file_name@, bytes: public_key@.bytes }),
{
    Action::WriteFile { path: file_name.to_owned(), bytes: public_key.to_bytes() }
}

/// The file a private key is stored in, for an SD card.
pub open spec fn private_key_file(number: Seq<char>) -> Seq<char> {
    "/mnt/ramdisk/sensitive/private_key"@ + number
}

/// The file a public key is stored in, for an SD card.
pub open spec fn public_key_file(number: Seq<char>) -> Seq<char> {
    "/mnt/ramdisk/sensitive/public_key"@ + number
}

/// The script of `generate_store_key_pair`, for a key pair with these bytes.
pub open spec fn generate_store_key_pair_script(number: Seq<char>, secret: Seq<u8>, public: Seq<u8>) -> ScriptView {
    message_script(
        seq![
            write_file_step(private_key_file(number), secret, "ERROR could not store private key: "@),
            write_file_step(public_key_file(number), public, "ERROR could not store public key: "@),
            run_step("mkdir"@, seq!["--parents"@, "/mnt/ramdisk/setupCD/pubkeys"@], ignore()),
            run_step(
                "cp"@,
                seq![public_key_file(number), "/mnt/ramdisk/setupCD/pubkeys"@],
                report("ERROR in generate store key pair with copying pubkey= "@),
            ),
        ],
        "SUCCESS generated and stored Private and Public Key Pair"@,
    )
}

/// Generates a key pair for the SD card and stores it on the ramdisk; copies
/// the public key into the setup CD's staging area. The private key is new and
/// random; the public key is its compressed serialization.
pub fn generate_store_key_pair(number: &str) -> (res: Script)
    ensures
        well_formed(res@),
        // the private key's bytes go to private_key<number>, the public key derived
        // from them to public_key<number>, which is copied into the pubkeys
        // directory that the mkdir step makes
        res@.steps.len() == 4,
        res@.steps[0].action is WriteFile && res@.steps[1].action is WriteFile,
        res@.steps[0].action->WriteFile_path == "/mnt/ramdisk/sensitive/private_key"@ + number@,
        is_valid_secret_key(res@.steps[0].action->WriteFile_bytes),
        res@.steps[1].action->WriteFile_path == "/mnt/ramdisk/sensitive/public_key"@ + number@,
        res@.steps[1].action->WriteFile_bytes == public_key_serialization(res@.steps[0].action->WriteFile_bytes, true),
        res@.steps[2].action == (ActionView::Run { program: "mkdir"@, args: seq!["--parents"@, "/mnt/ramdisk/setupCD/pubkeys"@], stdout_to: None, show_output: false }),
        res@.steps[3].action == (ActionView::Run { program: "cp"@, args: seq!["/mnt/ramdisk/sensitive/public_key"@ + number@, "/mnt/ramdisk/setupCD/pubkeys"@], stdout_to: None, show_output: false }),
        !(res@.steps[0].on_failure is Continue) && !(res@.steps[1].on_failure is Continue)
            && !(res@.steps[3].on_failure is Continue),
        exists|secret: Seq<u8>|
            is_valid_secret_key(secret) && public_key_serialization(secret, true).len() == 33
                && parsed_public_key(public_key_serialization(secret, true)) == Ok::<
                PublicKeyView,
                KeyError,
            >(PublicKeyView { compressed: true, bytes: public_key_serialization(secret, true) })
                && res@ == generate_store_key_pair_script(
                number@,
                secret,
                public_key_serialization(secret, true),
            ),
{
    let private_key_path = join("/mnt/ramdisk/sensitive/private_key", number);
    let public_key_path = join("/mnt/ramdisk/sensitive/public_key", number);
    let private_key = match generate_private_key() {
        Ok(k) => k,
        Err(e) => {
            return Script {
                steps: Vec::new(),
                ending: Ending::Message(join("ERROR could not generate private_key: ", e.as_str())),
            };
        },
    };
    let public_key = match derive_public_key(&private_key) {
        Ok(k) => k,
        Err(e) => {
            return Script {
                steps: Vec::new(),
                ending: Ending::Message(join("ERROR could not dervie public key: ", e.as_str())),
            };
        },
    };
    let steps = vec![
        Step {
            action: store_private_key(&private_key, private_key_path.as_str()),
            on_failure: reporting("ERROR could not store private key: "),
        },
        Step {
            action: store_public_key(&public_key, public_key_path.as_str()),
            on_failure: reporting("ERROR could not store public key: "),
        },
        run("mkdir", args2("--parents", "/mnt/ramdisk/setupCD/pubkeys"), ignoring()),
        run(
            "cp",
            args2(public_key_path.as_str(), "/mnt/ramdisk/setupCD/pubkeys"),
            reporting("ERROR in generate store key pair with copying pubkey= "),
        ),
    ];
    let res = with_message(steps, "SUCCESS generated and stored Private and Public Key Pair");
    proof {
        let secret = private_key@.secret;
        assert(public_key@ == PublicKeyView { compressed: true, bytes: public_key_serialization(secret, true) });
        assert(res@.steps =~= generate_store_key_pair_script(
            number@,
            secret,
            public_key_serialization(secret, true),
        ).steps);
    }
    res
}

/// The files `recover_key_pair` reads its private and its public key from
/// (both are the private key's file, as the command stands).
pub fn recover_key_pair_files() -> (res: (String, String))
    ensures
        res.0@ == "/mnt/ramdisk/sensitive/private_key.txt"@,
        res.1@ == "/mnt/ramdisk/sensitive/private_key.txt"@,
{
    (lit("/mnt/ramdisk/sensitive/private_key.txt"), lit("/mnt/ramdisk/sensitive/private_key.txt"))
}

/// What `recover_key_pair` answers, given what reading its two files gave.
pub open spec fn recover_key_pair_answer(
    private_read: Result<Seq<char>, Seq<char>>,
    public_read: Result<Seq<char>, Seq<char>>,
) -> Seq<char> {
    match recovered_private_key(private_read, Network::Bitcoin) {
        Err(e) => "ERROR could not recover private key: "@ + e,
        Ok(_) => match recovered_public_key(public_read) {
            Err(e) => "ERROR could not recover public key: "@ + e,
            Ok(_) => "SUCCESS recovered Private/Public Key Pair"@,
        },
    }
}

/// Recovers the private key, then the public key, from the texts of their
/// files (or the errors of reading them), and answers how that went.
pub fn recover_key_pair(private_read: Result<String, String>, public_read: Result<String, String>) -> (res: String)
    ensures
        res@ == recover_key_pair_answer(text_result(private_read), text_result(public_read)),
{
    match recover_private_key(private_read) {
        Err(e) => join("ERROR could not recover private key: ", e.as_str()),
        Ok(_) => match recover_public_key(public_read) {
            Err(e) => join("ERROR could not recover public key: ", e.as_str()),
            Ok(_) => lit("SUCCESS recovered Private/Public Key Pair"),
        },
    }
}

/// The arguments of a step that runs a program.
pub open spec fn run_args(step: StepView) -> Seq<Seq<char>> {
    step.action->Run_args
}

/// Unpacking restores what packing up saved: packup archives the sensitive
/// directory into the tarball it encrypts into the user's encrypted.gpg;
/// unpack decrypts that same file, extracts what it decrypted under
/// /mnt/ramdisk/ (where tar recreates the archived path without its leading
/// slash), and copies the sensitive directory from there back onto the ramdisk.
pub proof fn lemma_unpack_restores_packup(user: Seq<char>)
    ensures
        ({
            let pack = packup_script(user).steps;
            let restore = unpack_script(user).steps;
            &&& run_args(pack[3])[2] == "/mnt/ramdisk/sensitive"@
            &&& run_args(pack[4])[6] == run_args(pack[3])[1]
            &&& run_args(restore[2])[6] == run_args(pack[4])[4]
            &&& run_args(restore[3])[1] == run_args(restore[2])[4]
            &&& run_args(restore[4])[1] == run_args(restore[3])[3] + run_args(pack[3])[2].drop_first()
            &&& run_args(restore[4])[2] == "/mnt/ramdisk"@
        }),
{
    reveal_strlit("/mnt/ramdisk/sensitive");
    reveal_strlit("/mnt/ramdisk/");
    reveal_strlit("/mnt/ramdisk/mnt/ramdisk/sensitive");
    let pack = packup_script(user).steps;
    let restore = unpack_script(user).steps;
    assert(run_args(restore[3])[3] + run_args(pack[3])[2].drop_first() =~= "/mnt/ramdisk/mnt/ramdisk/sensitive"@);
}

/// The image burnt is the image made: make_backup burns the backup image
/// that create_backup made for the same SD card, and refresh_setup_cd burns
/// the image it made of the setup directory.
pub proof fn lemma_burnt_images_are_made(user: Seq<char>, number: Seq<char>)
    ensures
        run_args(make_backup_script(number).steps[4])[3] == run_args(create_backup_script(user, number).steps[5])[3],
        run_args(refresh_setup_cd_script().steps[3])[3] == run_args(refresh_setup_cd_script().steps[0])[3],
{
}

/// The masterkey extracted from the setup CD lands where packing up and
/// unpacking read their passphrase.
pub proof fn lemma_masterkey_reaches_the_ramdisk(user: Seq<char>)
    ensures
        run_args(extract_masterkey_script().steps[0])[0] == "/mnt/ramdisk/setupCD/masterkey"@,
        run_args(extract_masterkey_script().steps[0])[1] + "/masterkey"@ == run_args(packup_script(user).steps[4])[2],
        run_args(packup_script(user).steps[4])[2] == run_args(unpack_script(user).steps[2])[2],
{
    reveal_strlit("/mnt/ramdisk");
    reveal_strlit("/masterkey");
    reveal_strlit("/mnt/ramdisk/masterkey");
    assert("/mnt/ramdisk"@ + "/masterkey"@ =~= "/mnt/ramdisk/masterkey"@);
}

} // verus!
