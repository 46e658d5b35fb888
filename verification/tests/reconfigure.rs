use macgen::command::Failure;
use macgen::reconfigure::{
    first_step, listing_command, listing_warning_line, next_step, pause_after, status_line,
    step_command, Step,
};

#[test]
fn the_plan_has_four_steps_in_order() {
    assert_eq!(first_step(), Step::Deactivate);
    assert_eq!(next_step(Step::Deactivate), Some(Step::SetOverride));
    assert_eq!(next_step(Step::SetOverride), Some(Step::Reactivate));
    assert_eq!(next_step(Step::Reactivate), Some(Step::ClearOverride));
    assert_eq!(next_step(Step::ClearOverride), None);
}

#[test]
fn a_pause_follows_taking_down_and_bringing_up() {
    assert_eq!(pause_after(Step::Deactivate), 1);
    assert_eq!(pause_after(Step::SetOverride), 0);
    assert_eq!(pause_after(Step::Reactivate), 1);
    assert_eq!(pause_after(Step::ClearOverride), 0);
}

#[test]
fn listing_command_is_ip_a() {
    let command = listing_command();
    assert_eq!(command.program, "ip");
    assert_eq!(command.args, vec!["a".to_string()]);
}

#[test]
fn step_commands_have_the_fixed_shapes() {
    let down = step_command(Step::Deactivate, "home-wifi", "02:aa:bb:cc:dd:ee");
    assert_eq!(down.program, "nmcli");
    assert_eq!(down.args, vec!["connection", "down", "home-wifi"]);

    let set = step_command(Step::SetOverride, "home-wifi", "02:aa:bb:cc:dd:ee");
    assert_eq!(set.program, "nmcli");
    assert_eq!(
        set.args,
        vec![
            "connection",
            "modify",
            "home-wifi",
            "802-11-wireless.cloned-mac-address",
            "02:aa:bb:cc:dd:ee"
        ]
    );

    let up = step_command(Step::Reactivate, "home-wifi", "02:aa:bb:cc:dd:ee");
    assert_eq!(up.program, "nmcli");
    assert_eq!(up.args, vec!["connection", "up", "home-wifi"]);

    let clear = step_command(Step::ClearOverride, "home-wifi", "02:aa:bb:cc:dd:ee");
    assert_eq!(clear.program, "nmcli");
    assert_eq!(
        clear.args,
        vec!["connection", "modify", "home-wifi", "802-11-wireless.cloned-mac-address", " "]
    );
}

#[test]
fn step_commands_pass_the_connection_name_as_one_argument() {
    let down = step_command(Step::Deactivate, "My Home Wifi", "");
    assert_eq!(down.args, vec!["connection", "down", "My Home Wifi"]);
    let down = step_command(Step::Deactivate, "", "");
    assert_eq!(down.args, vec!["connection", "down", ""]);
}

#[test]
fn status_lines_tell_success_from_failure() {
    assert_eq!(status_line(Step::Deactivate, &Ok(())), "Deactivating the connection succeeded");
    assert_eq!(status_line(Step::SetOverride, &Ok(())), "Setting the new address succeeded");
    assert_eq!(status_line(Step::Reactivate, &Ok(())), "Reactivating the connection succeeded");
    assert_eq!(
        status_line(Step::ClearOverride, &Ok(())),
        "Clearing the address override succeeded"
    );
    assert_eq!(
        status_line(Step::SetOverride, &Err(Failure::Failed { stderr: "no such property".to_string() })),
        "Setting the new address failed: Command failed with error: no such property"
    );
    assert_eq!(
        status_line(
            Step::Deactivate,
            &Err(Failure::NotStarted { reason: "No such file or directory (os error 2)".to_string() })
        ),
        "Deactivating the connection failed: No such file or directory (os error 2)"
    );
}

#[test]
fn listing_warning_carries_the_failure() {
    assert_eq!(
        listing_warning_line(&Failure::Failed { stderr: "denied".to_string() }),
        "Warning: Could not display network interfaces: Command failed with error: denied"
    );
    assert_eq!(
        listing_warning_line(&Failure::NotStarted { reason: "not found".to_string() }),
        "Warning: Could not display network interfaces: not found"
    );
}
