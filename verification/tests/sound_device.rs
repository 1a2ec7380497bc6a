use vocal_analyzer::sound_device::{Device, DeviceList, Sound};

fn device(id: &str, name: &str, samplerate: usize) -> Device {
    Device { id: id.to_string(), name: name.to_string(), samplerate }
}

#[test]
fn new_selects_the_default_device() {
    let devices = vec![
        device("mic-a", "Front microphone", 44100),
        device("mic-b", "Headset", 48000),
        device("mic-c", "Line in", 96000),
    ];
    let list = DeviceList::new(devices, &"mic-b".to_string());
    assert_eq!(list.index, 1);
    assert_eq!(list.devices.len(), 3);
    assert_eq!(list.device().id, "mic-b");
    assert_eq!(list.device().name, "Headset");
    assert_eq!(list.device().samplerate, 48000);
}

#[test]
fn new_selects_the_first_of_two_devices_with_one_id() {
    let devices = vec![
        device("other", "Other", 8000),
        device("twin", "First twin", 44100),
        device("twin", "Second twin", 48000),
    ];
    let list = DeviceList::new(devices, &"twin".to_string());
    assert_eq!(list.index, 1);
    assert_eq!(list.device().name, "First twin");
}

#[test]
fn position_of_finds_nothing_for_an_unknown_id() {
    let devices = vec![device("mic-a", "A", 44100)];
    assert_eq!(DeviceList::position_of(&devices, &"mic-z".to_string()), None);
    assert_eq!(DeviceList::position_of(&devices, &"mic-a".to_string()), Some(0));
    assert_eq!(DeviceList::position_of(&Vec::new(), &"mic-a".to_string()), None);
}

#[test]
fn device_follows_the_index() {
    let devices = vec![device("a", "A", 1), device("b", "B", 2)];
    let mut list = DeviceList::new(devices, &"a".to_string());
    assert_eq!(list.device().name, "A");
    list.index = 1;
    assert_eq!(list.device().name, "B");
}

#[test]
fn a_sound_carries_its_samples_and_rate() {
    let sound = Sound { samples: vec![0.25f32, -0.5], samplerate: 48000 };
    assert_eq!(sound.samples, vec![0.25, -0.5]);
    assert_eq!(sound.samplerate, 48000);
}
