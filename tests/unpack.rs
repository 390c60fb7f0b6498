use vlc_static::materialize::files_to_unpack;
use vlc_static::platform::{Platform, DEPENDENCY_COUNT};

#[test]
fn linux_file_names() {
    assert_eq!(
        Platform::Linux.dependency_file_names(),
        vec!["libvlc.so", "libvlccore.so", "axvlc.so"]
    );
    assert_eq!(Platform::Linux.primary_file_name(), "libvlc.so");
}

#[test]
fn windows_file_names() {
    assert_eq!(
        Platform::Windows.dependency_file_names(),
        vec!["libvlc.dll", "libvlccore.dll", "axvlc.dll"]
    );
    assert_eq!(Platform::Windows.primary_file_name(), "libvlc.dll");
}

#[test]
fn macos_file_names() {
    assert_eq!(
        Platform::MacOs.dependency_file_names(),
        vec!["libvlc.dynlib", "libvlccore.dynlib", "axvlc.dynlib"]
    );
    assert_eq!(Platform::MacOs.primary_file_name(), "libvlc.dynlib");
}

#[test]
fn platform_sets_share_no_name() {
    let all = [Platform::Linux, Platform::Windows, Platform::MacOs];
    for p in all.iter() {
        assert_eq!(p.dependency_file_names().len(), DEPENDENCY_COUNT);
        for q in all.iter() {
            if p != q {
                for a in p.dependency_file_names() {
                    assert!(!q.dependency_file_names().contains(&a));
                }
            }
        }
    }
}

#[test]
fn fresh_directory_unpacks_every_file() {
    assert_eq!(files_to_unpack(&vec![false, false, false]), vec![0, 1, 2]);
}

#[test]
fn second_run_unpacks_nothing() {
    assert_eq!(files_to_unpack(&vec![true, true, true]), Vec::<usize>::new());
}

#[test]
fn only_missing_files_are_unpacked() {
    assert_eq!(files_to_unpack(&vec![true, false, true]), vec![1]);
    assert_eq!(files_to_unpack(&vec![false, true, false]), vec![0, 2]);
    assert_eq!(files_to_unpack(&vec![]), Vec::<usize>::new());
}

#[test]
fn selected_platform_targets_its_own_files() {
    let p = Platform::Windows;
    let names = p.dependency_file_names();
    let targets: Vec<&str> = files_to_unpack(&vec![false, true, false])
        .into_iter()
        .map(|i| names[i])
        .collect();
    assert_eq!(targets, vec!["libvlc.dll", "axvlc.dll"]);
}
