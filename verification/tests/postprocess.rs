use cargo_pros::invocation::Invocation;
use cargo_pros::postprocess::{
    arm_install_root, find_objcopy_path_windows, notices, objcopy_path, postprocess, strip_binary,
};

fn strings(items: &[&str]) -> Vec<String> {
    items.iter().map(|item| item.to_string()).collect()
}

fn expected_plan(tool: &str) -> Vec<Invocation> {
    vec![
        Invocation {
            program: tool.to_string(),
            args: strings(&[
                "--strip-symbol=install_hot_table",
                "--strip-symbol=__libc_init_array",
                "--strip-symbol=_PROS_COMPILE_DIRECTORY",
                "--strip-symbol=_PROS_COMPILE_TIMESTAMP",
                "--strip-symbol=_PROS_COMPILE_TIMESTAMP_INT",
                "target/debug/robot.elf",
                "target/debug/robot.elf.stripped",
            ]),
            current_dir: None,
        },
        Invocation {
            program: tool.to_string(),
            args: strings(&[
                "-O",
                "binary",
                "-R",
                ".hot_init",
                "target/debug/robot.elf.stripped",
                "target/debug/robot.elf.bin",
            ]),
            current_dir: None,
        },
    ]
}

#[test]
fn objcopy_path_falls_back_to_the_bare_name() {
    assert_eq!(objcopy_path(None), "arm-none-eabi-objcopy");
    assert_eq!(objcopy_path(Some("/opt/arm/bin/objcopy".to_string())), "/opt/arm/bin/objcopy");
}

#[test]
fn find_objcopy_path_windows_looks_into_the_installation() {
    assert_eq!(find_objcopy_path_windows(None), None);
    assert_eq!(
        find_objcopy_path_windows(Some("C:\\Arm\\13.2".to_string())),
        Some("C:\\Arm\\13.2\\bin\\arm-none-eabi-objcopy.exe".to_string())
    );
    assert_eq!(
        find_objcopy_path_windows(Some("C:\\Arm\\13.2\\".to_string())),
        Some("C:\\Arm\\13.2\\bin\\arm-none-eabi-objcopy.exe".to_string())
    );
    assert_eq!(
        find_objcopy_path_windows(Some("C:/Arm/13.2/".to_string())),
        Some("C:/Arm/13.2/bin\\arm-none-eabi-objcopy.exe".to_string())
    );
    assert_eq!(arm_install_root(), "C:\\Program Files (x86)\\Arm GNU Toolchain arm-none-eabi");
}

#[test]
fn strip_binary_strips_then_converts() {
    assert_eq!(strip_binary("arm-none-eabi-objcopy", "target/debug/robot.elf"), expected_plan("arm-none-eabi-objcopy"));
}

#[test]
fn postprocess_with_stripping_makes_both_files() {
    let plan = postprocess("objcopy", "target/debug/robot.elf", true);
    assert_eq!(plan, expected_plan("objcopy"));
    let written: Vec<&String> = plan.iter().map(|run| run.args.last().unwrap()).collect();
    assert_eq!(written, ["target/debug/robot.elf.stripped", "target/debug/robot.elf.bin"]);
    assert!(written.iter().all(|path| *path != "target/debug/robot.elf"));
}

#[test]
fn postprocess_without_stripping_runs_nothing() {
    assert_eq!(postprocess("objcopy", "target/debug/robot.wasm", false), Vec::new());
}

#[test]
fn notices_name_the_binary_that_is_stripped() {
    assert_eq!(notices("target/debug/robot.elf", true), ["Stripping Binary: target/debug/robot.elf"]);
    assert_eq!(notices("target/debug/robot.wasm", false), Vec::<String>::new());
}
