use kobo_annot::prober::Volume;
use kobo_annot::prober::probe_for_device;

fn volume(name: &str, mount_point: &str) -> Volume {
    Volume { name: name.to_string(), mount_point: mount_point.to_string() }
}

#[test]
fn absent_target_yields_nothing() {
    let vols = vec![volume("Backup", "/media/backup"), volume("Camera", "/media/camera")];
    assert_eq!(probe_for_device(&vols), None);
}

#[test]
fn empty_volume_list_yields_nothing() {
    let vols: Vec<Volume> = Vec::new();
    assert_eq!(probe_for_device(&vols), None);
}

#[test]
fn target_found_amid_other_volumes() {
    let vols = vec![
        volume("Backup", "/media/backup"),
        volume("KOBOeReader", "/media/kobo"),
        volume("Camera", "/media/camera"),
    ];
    assert_eq!(probe_for_device(&vols), Some("/media/kobo".to_string()));
}

#[test]
fn first_matching_volume_wins() {
    let vols = vec![
        volume("KOBOeReader", "/media/kobo1"),
        volume("KOBOeReader", "/media/kobo2"),
    ];
    assert_eq!(probe_for_device(&vols), Some("/media/kobo1".to_string()));
}

#[test]
fn name_match_is_case_sensitive() {
    let vols = vec![volume("koboereader", "/media/kobo")];
    assert_eq!(probe_for_device(&vols), None);
}
