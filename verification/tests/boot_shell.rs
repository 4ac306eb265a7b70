use vib_modules::boot_shell::As;
use vib_modules::boot_shell::PkgModule;
use vib_modules::boot_shell::build;
use vib_modules::boot_shell::build_plan;

const SCRIPT_HEADER: &str = "\n    \n    #!/bin/bash\n    -oeu pipefail\n\n    ";

fn module() -> PkgModule {
    PkgModule {
        name: "test-module".to_string(),
        module_type: "boot-shell".to_string(),
        packages: Vec::new(),
        remotes: Vec::new(),
        scope: As::system,
        commands: Vec::new(),
    }
}

#[test]
fn test_build_system_module() {
    let mut m = module();
    m.commands = vec!["echo 'hello'".to_string(), "ls -l".to_string()];
    m.scope = As::system;
    let a = build(&m, "includes");
    assert!(a.enable_command.starts_with("systemctl enable --system boot-shell-system-"));
    let token = a.enable_command.split("boot-shell-system-").last().unwrap();
    assert_eq!(a.script_path, format!("includes/usr/bin/boot-shell-system-{token}"));
    assert_eq!(
        a.service_path,
        format!("includes/etc/systemd/system/boot-shell-system-{token}.service")
    );
    assert!(a.script_content.contains("echo 'hello'"));
    assert!(a.script_content.contains("ls -l"));
    assert!(a.service_content.contains(&a.script_path));
}

#[test]
fn test_boot_shell_script_lines_in_order() {
    let mut m = module();
    m.commands = vec!["echo 'hello'".to_string(), "ls -l".to_string()];
    let a = build_plan(&m, "/work", "5555");
    assert_eq!(a.script_content, format!("{SCRIPT_HEADER}echo 'hello'\nls -l\n\n"));
    assert_eq!(a.enable_command, "systemctl enable --system boot-shell-system-5555");
    assert_eq!(a.script_path, "/work/usr/bin/boot-shell-system-5555");
    assert_eq!(a.service_path, "/work/etc/systemd/system/boot-shell-system-5555.service");
    let expected_service_content = format!(
        "
[Unit]
Description=Runs scripts after boot
Wants=network-online.target
After=network-online.target

[Service]
Type=oneshot
ExecStart={}
Restart=on-failure
RestartSec=30

[Install]
WantedBy=default.target
",
        "/work/usr/bin/boot-shell-system-5555"
    );
    assert_eq!(a.service_content, expected_service_content);
}

#[test]
fn test_boot_shell_empty_commands() {
    let m = module();
    let a = build_plan(&m, "/work", "6666");
    assert_eq!(a.script_content, format!("{SCRIPT_HEADER}\n"));
}

#[test]
fn test_boot_shell_user_scope() {
    let mut m = module();
    m.commands = vec!["true".to_string()];
    m.scope = As::user;
    let a = build_plan(&m, "/work", "7777");
    assert_eq!(a.enable_command, "systemctl enable --user boot-shell-user-7777");
    assert_eq!(a.script_path, "/work/usr/bin/boot-shell-user-7777");
    assert_eq!(a.service_dir, "/work/etc/systemd/user");
    assert_eq!(a.service_path, "/work/etc/systemd/user/boot-shell-user-7777.service");
    assert!(a.service_content.contains("After=network-online.target"));
}
