use eeg_pipeline::device::{channel_names, detect_family, device_info, family_of, DeviceFamily};

fn strings(names: &[&str]) -> Vec<String> {
    names.iter().map(|name| name.to_string()).collect()
}

#[test]
fn family_is_found_in_source_id_or_name() {
    assert_eq!(detect_family("unicorn-1234", "stream"), DeviceFamily::Unicorn);
    assert_eq!(detect_family("xyz", "My Unicorn"), DeviceFamily::Unicorn);
    assert_eq!(detect_family("openbci_eeg_1", "obci"), DeviceFamily::OpenBci);
    assert_eq!(detect_family("id", "emotiv epoc"), DeviceFamily::Emotiv);
    assert_eq!(detect_family("neurosky-77", "x"), DeviceFamily::NeuroSky);
    assert_eq!(detect_family("x", "muse-2"), DeviceFamily::Muse);
    assert_eq!(detect_family("abc", "def"), DeviceFamily::Unknown);
    assert_eq!(detect_family("", ""), DeviceFamily::Unknown);
}

#[test]
fn family_of_lowercase_texts() {
    assert_eq!(family_of("unicorn-1234", "stream"), DeviceFamily::Unicorn);
    assert_eq!(family_of("xyz", "my unicorn"), DeviceFamily::Unicorn);
    assert_eq!(family_of("xyz", "123"), DeviceFamily::Unicorn);
    assert_eq!(family_of("openbci", "x"), DeviceFamily::OpenBci);
    assert_eq!(family_of("x", "emotiv"), DeviceFamily::Emotiv);
    assert_eq!(family_of("neurosky", "x"), DeviceFamily::NeuroSky);
    assert_eq!(family_of("x", "muse"), DeviceFamily::Muse);
    assert_eq!(family_of("ab", "c"), DeviceFamily::Unknown);
}

#[test]
fn family_of_takes_its_texts_as_they_are() {
    assert_eq!(family_of("UNICORN", "x"), DeviceFamily::Unknown);
    assert_eq!(family_of("x", "OpenBCI"), DeviceFamily::Unknown);
}

#[test]
fn family_detection_ignores_case() {
    assert_eq!(detect_family("UNICORN-1234", "stream"), DeviceFamily::Unicorn);
    assert_eq!(detect_family("id", "OpenBCI_EEG"), DeviceFamily::OpenBci);
    assert_eq!(detect_family("EmOtIv", "x"), DeviceFamily::Emotiv);
    assert_eq!(detect_family("x", "NeuroSky"), DeviceFamily::NeuroSky);
    assert_eq!(detect_family("MUSE", "x"), DeviceFamily::Muse);
}

#[test]
fn bare_identifier_names_a_unicorn() {
    assert_eq!(detect_family("anything", "123"), DeviceFamily::Unicorn);
    assert_eq!(detect_family("123", "anything"), DeviceFamily::Unknown);
    assert_eq!(detect_family("anything", "1234"), DeviceFamily::Unknown);
}

#[test]
fn families_are_tried_in_order() {
    assert_eq!(detect_family("openbci", "unicorn"), DeviceFamily::Unicorn);
    assert_eq!(detect_family("emotiv", "openbci"), DeviceFamily::OpenBci);
    assert_eq!(detect_family("muse", "emotiv"), DeviceFamily::Emotiv);
    assert_eq!(detect_family("muse", "neurosky"), DeviceFamily::NeuroSky);
}

#[test]
fn unicorn_channels() {
    assert_eq!(
        channel_names(DeviceFamily::Unicorn, 8),
        strings(&["Fz", "C3", "Cz", "C4", "Pz", "PO7", "Oz", "PO8"])
    );
    assert_eq!(
        channel_names(DeviceFamily::Unicorn, 17),
        strings(&[
            "Fz", "C3", "Cz", "C4", "Pz", "PO7", "Oz", "PO8", "ACC_X", "ACC_Y", "ACC_Z", "GYR_X",
            "GYR_Y", "GYR_Z", "Battery", "Counter", "Validation"
        ])
    );
    assert_eq!(channel_names(DeviceFamily::Unicorn, 3), strings(&["Fz", "C3", "Cz"]));
}

#[test]
fn channels_beyond_the_layout_are_numbered() {
    let names = channel_names(DeviceFamily::Unicorn, 20);
    assert_eq!(names.len(), 20);
    assert_eq!(names[16], "Validation");
    assert_eq!(names[17], "Ch18");
    assert_eq!(names[18], "Ch19");
    assert_eq!(names[19], "Ch20");
    let names = channel_names(DeviceFamily::Emotiv, 16);
    assert_eq!(names[13], "AF4");
    assert_eq!(names[14], "Ch15");
    assert_eq!(names[15], "Ch16");
}

#[test]
fn openbci_layout_depends_on_the_channel_count() {
    assert_eq!(
        channel_names(DeviceFamily::OpenBci, 8),
        strings(&["Fp1", "Fp2", "C3", "C4", "P7", "P8", "O1", "O2"])
    );
    assert_eq!(channel_names(DeviceFamily::OpenBci, 4), strings(&["Fp1", "Fp2", "C3", "C4"]));
    assert_eq!(
        channel_names(DeviceFamily::OpenBci, 9),
        strings(&["Fp1", "Fp2", "F7", "F3", "F4", "F8", "C3", "Cz", "C4"])
    );
    assert_eq!(
        channel_names(DeviceFamily::OpenBci, 18),
        strings(&[
            "Fp1", "Fp2", "F7", "F3", "F4", "F8", "C3", "Cz", "C4", "T7", "T8", "P7", "P3", "Pz",
            "P4", "P8", "Ch17", "Ch18"
        ])
    );
}

#[test]
fn emotiv_channels() {
    assert_eq!(
        channel_names(DeviceFamily::Emotiv, 14),
        strings(&[
            "AF3", "F7", "F3", "FC5", "T7", "P7", "O1", "O2", "P8", "T8", "FC6", "F4", "F8", "AF4"
        ])
    );
}

#[test]
fn families_without_layout_get_numbered_channels() {
    for family in [DeviceFamily::Unknown, DeviceFamily::NeuroSky, DeviceFamily::Muse] {
        assert_eq!(channel_names(family, 3), strings(&["Ch1", "Ch2", "Ch3"]));
        let names = channel_names(family, 12);
        assert_eq!(names[8], "Ch9");
        assert_eq!(names[9], "Ch10");
        assert_eq!(names[11], "Ch12");
    }
}

#[test]
fn no_channels_no_names() {
    for family in [DeviceFamily::Unicorn, DeviceFamily::OpenBci, DeviceFamily::Unknown] {
        assert!(channel_names(family, 0).is_empty());
    }
}

#[test]
fn every_count_gives_that_many_names() {
    for family in [
        DeviceFamily::Unicorn,
        DeviceFamily::OpenBci,
        DeviceFamily::Emotiv,
        DeviceFamily::NeuroSky,
        DeviceFamily::Muse,
        DeviceFamily::Unknown,
    ] {
        for count in 0..40 {
            assert_eq!(channel_names(family, count).len(), count);
        }
    }
}

#[test]
fn manufacturer_and_model_of_each_family() {
    let info = |family| {
        let (manufacturer, model) = device_info(family);
        (manufacturer, model)
    };
    assert_eq!(
        info(DeviceFamily::Unicorn),
        ("g.tec medical engineering GmbH".to_string(), "Unicorn Hybrid Black".to_string())
    );
    assert_eq!(info(DeviceFamily::OpenBci), ("OpenBCI".to_string(), "Cyton Board".to_string()));
    assert_eq!(info(DeviceFamily::Emotiv), ("Emotiv Inc.".to_string(), "EPOC+".to_string()));
    assert_eq!(info(DeviceFamily::NeuroSky), ("NeuroSky".to_string(), "MindWave".to_string()));
    assert_eq!(info(DeviceFamily::Muse), ("InteraXon".to_string(), "Muse Headband".to_string()));
    assert_eq!(
        info(DeviceFamily::Unknown),
        ("Unknown Manufacturer".to_string(), "EEG Device".to_string())
    );
}
