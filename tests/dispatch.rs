use lumactl::dispatch::{Action, Dispatch, Event};
use lumactl::inventory::{BrightnessControl, Lumactld, OutputInfo, ProbedOutput};
use lumactl::ipc::{IpcError, IpcRequest, IpcResponse};

/// A simulated display: its reading, and whether its reads or writes fail.
struct Panel {
    value: u8,
    max: u8,
    fail_read: bool,
    fail_write: bool,
    writes: usize,
}

fn panel(value: u8, max: u8) -> Panel {
    Panel { value, max, fail_read: false, fail_write: false, writes: 0 }
}

fn daemon_with(names: &[(&str, bool)]) -> Lumactld<usize> {
    let mut daemon = Lumactld::new();
    let probed = names
        .iter()
        .enumerate()
        .map(|(i, (name, ddc))| ProbedOutput {
            info: OutputInfo { name: Some(name.to_string()), model: String::new(), description: None },
            control: Some(if *ddc {
                BrightnessControl::I2c(i)
            } else {
                BrightnessControl::Backlight(format!("/sys/class/drm/card1-{name}/intel_backlight"))
            }),
        })
        .collect();
    daemon.reload_displays(probed);
    daemon
}

/// Runs a request to its reply, performing each action on the panels.
fn run(daemon: &Lumactld<usize>, panels: &mut [Panel], request: IpcRequest) -> Result<IpcResponse, IpcError> {
    let mut dispatch = Dispatch::new(&request, daemon);
    loop {
        match dispatch.action() {
            Action::Reply(reply) => return reply,
            Action::Read { display } => {
                let p = &panels[display];
                let event = if p.fail_read { Err("read failed".to_string()) } else { Ok((p.value, p.max)) };
                dispatch.resume(Event::Read(event));
            }
            Action::Write { display, value } => {
                let p = &mut panels[display];
                let event = if p.fail_write {
                    Err("failed to set brightness".to_string())
                } else {
                    p.value = value;
                    p.writes += 1;
                    Ok(())
                };
                dispatch.resume(Event::Written(event));
            }
        }
    }
}

#[test]
fn end_to_end_get_and_set() {
    let daemon = daemon_with(&[("eDP-1", false), ("HDMI-1", true)]);
    let mut panels = vec![panel(120, 255), panel(40, 100)];
    match run(&daemon, &mut panels, IpcRequest::Get { display: None }) {
        Ok(IpcResponse::DisplayBrightness(list)) => {
            assert_eq!(list.len(), 2);
            assert_eq!(list[0].name, "eDP-1");
            assert_eq!((list[0].brightness, list[0].max_brightness), (120, 255));
            assert_eq!(list[1].name, "HDMI-1");
            assert_eq!((list[1].brightness, list[1].max_brightness), (40, 100));
        }
        _ => panic!("both displays should be listed"),
    }
    let request = IpcRequest::SetBrightness { display: Some("HDMI-1".to_string()), brightness: "50%".to_string() };
    match run(&daemon, &mut panels, request) {
        Ok(IpcResponse::Done) => {}
        _ => panic!("the change should succeed"),
    }
    assert_eq!(panels[1].value, 50);
    assert_eq!(panels[1].writes, 1);
    assert_eq!(panels[0].value, 120);
    assert_eq!(panels[0].writes, 0);
}

#[test]
fn broadcast_partial_failure() {
    let daemon = daemon_with(&[("eDP-1", false), ("HDMI-1", true), ("DP-1", true)]);
    let mut panels = vec![panel(120, 255), panel(40, 100), panel(70, 100)];
    panels[1].fail_write = true;
    let request = IpcRequest::SetBrightness { display: None, brightness: "10".to_string() };
    match run(&daemon, &mut panels, request) {
        Err(IpcError::SetBrightnessError { error }) => assert_eq!(error, "failed to set brightness"),
        _ => panic!("the failure should be the reply"),
    }
    assert_eq!(panels[0].value, 10);
    assert_eq!(panels[2].value, 10);
    assert_eq!(panels[1].value, 40);
}

#[test]
fn first_failure_is_reported_after_reading_all() {
    let daemon = daemon_with(&[("eDP-1", false), ("HDMI-1", true), ("DP-1", true)]);
    let mut panels = vec![panel(1, 255), panel(2, 100), panel(3, 100)];
    panels[0].fail_read = true;
    panels[2].fail_read = true;
    match run(&daemon, &mut panels, IpcRequest::Get { display: None }) {
        Err(IpcError::GetBrightnessError { error }) => assert_eq!(error, "read failed"),
        _ => panic!("a failed read should be the reply"),
    }
    // a failed read on the first display does not keep the others from being written
    let request = IpcRequest::SetBrightness { display: None, brightness: "+1".to_string() };
    match run(&daemon, &mut panels, request) {
        Err(IpcError::SetBrightnessError { error }) => assert_eq!(error, "read failed"),
        _ => panic!("a failed read should be the reply"),
    }
    assert_eq!(panels[1].value, 3);
    assert_eq!(panels[1].writes, 1);
}

#[test]
fn unknown_display_is_refused_before_hardware() {
    let daemon = daemon_with(&[("eDP-1", false)]);
    let mut panels = vec![panel(1, 255)];
    panels[0].fail_read = true;
    match run(&daemon, &mut panels, IpcRequest::Get { display: Some("VGA-1".to_string()) }) {
        Err(IpcError::DisplayNotFound { display }) => assert_eq!(display, "VGA-1"),
        _ => panic!("the display should not be found"),
    }
    let request = IpcRequest::SetBrightness { display: Some("VGA-1".to_string()), brightness: "x".to_string() };
    match run(&daemon, &mut panels, request) {
        Err(IpcError::DisplayNotFound { display }) => assert_eq!(display, "VGA-1"),
        _ => panic!("the display should not be found"),
    }
}

#[test]
fn bad_change_is_refused_before_hardware() {
    let daemon = daemon_with(&[("eDP-1", false), ("HDMI-1", true)]);
    let mut panels = vec![panel(1, 255), panel(2, 100)];
    let request = IpcRequest::SetBrightness { display: None, brightness: "+".to_string() };
    match run(&daemon, &mut panels, request) {
        Err(IpcError::SetBrightnessError { error }) => assert_eq!(error, "invalid brightness value"),
        _ => panic!("the change should be refused"),
    }
    let request = IpcRequest::SetBrightness { display: Some("eDP".to_string()), brightness: " ".to_string() };
    match run(&daemon, &mut panels, request) {
        Err(IpcError::SetBrightnessError { error }) => assert_eq!(error, "brightness cannot be empty"),
        _ => panic!("the change should be refused"),
    }
    assert_eq!(panels[0].writes + panels[1].writes, 0);
}

#[test]
fn single_display_get_and_relative_set() {
    let daemon = daemon_with(&[("eDP-1", false), ("HDMI-1", true)]);
    let mut panels = vec![panel(50, 200), panel(2, 100)];
    match run(&daemon, &mut panels, IpcRequest::Get { display: Some("eDP".to_string()) }) {
        Ok(IpcResponse::DisplayBrightness(list)) => {
            assert_eq!(list.len(), 1);
            assert_eq!(list[0].name, "eDP-1");
            assert_eq!(list[0].brightness, 50);
        }
        _ => panic!("one display should be listed"),
    }
    let request = IpcRequest::SetBrightness { display: Some("eDP-1".to_string()), brightness: "+10%".to_string() };
    assert!(matches!(run(&daemon, &mut panels, request), Ok(IpcResponse::Done)));
    assert_eq!(panels[0].value, 70);
}

#[test]
fn empty_inventory() {
    let daemon = daemon_with(&[]);
    let mut panels: Vec<Panel> = Vec::new();
    match run(&daemon, &mut panels, IpcRequest::Get { display: None }) {
        Ok(IpcResponse::DisplayBrightness(list)) => assert!(list.is_empty()),
        _ => panic!("an empty listing is expected"),
    }
    let request = IpcRequest::SetBrightness { display: None, brightness: "10".to_string() };
    assert!(matches!(run(&daemon, &mut panels, request), Ok(IpcResponse::Done)));
}

#[test]
fn stray_events_change_nothing() {
    let daemon = daemon_with(&[("eDP-1", false)]);
    let request = IpcRequest::SetBrightness { display: None, brightness: "10".to_string() };
    let mut dispatch = Dispatch::new(&request, &daemon);
    assert!(matches!(dispatch.action(), Action::Read { display: 0 }));
    dispatch.resume(Event::Written(Ok(())));
    assert!(matches!(dispatch.action(), Action::Read { display: 0 }));
    dispatch.resume(Event::Read(Ok((5, 100))));
    assert!(matches!(dispatch.action(), Action::Write { display: 0, value: 10 }));
    dispatch.resume(Event::Read(Ok((6, 100))));
    assert!(matches!(dispatch.action(), Action::Write { display: 0, value: 10 }));
    dispatch.resume(Event::Written(Ok(())));
    assert!(matches!(dispatch.action(), Action::Reply(Ok(IpcResponse::Done))));
}
