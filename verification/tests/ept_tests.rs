use hypervisor::ept::AccessType;
use hypervisor::ept::Ept;
use hypervisor::error::HypervisorError;

#[test]
fn identity_map_covers_every_page() {
    let ept = Ept::identity_4kb(8, AccessType::read_write_execute());
    assert_eq!(ept.page_count(), 8);
    for page in 0u64..8 {
        let entry = ept.entry_for(page * 4096 + 123).unwrap();
        assert_eq!(entry.frame, page);
        assert!(entry.access.read);
        assert!(entry.access.write);
        assert!(entry.access.execute);
    }
}

#[test]
fn lookup_outside_mapped_range_fails() {
    let ept = Ept::identity_4kb(4, AccessType::read_write_execute());
    assert_eq!(ept.entry_for(4 * 4096), Err(HypervisorError::Resolution));
    assert_eq!(ept.entry_for(u64::MAX), Err(HypervisorError::Resolution));
}

#[test]
fn set_page_access_changes_only_the_policy() {
    let mut ept = Ept::identity_4kb(4, AccessType::read_write_execute());
    assert_eq!(ept.set_page_access(2 * 4096, AccessType::read_write()), Ok(()));
    let changed = ept.entry_for(2 * 4096).unwrap();
    assert_eq!(changed.frame, 2);
    assert!(changed.access.read && changed.access.write && !changed.access.execute);
    let untouched = ept.entry_for(1 * 4096).unwrap();
    assert!(untouched.access.execute);
}

#[test]
fn mutation_outside_mapped_range_fails() {
    let mut ept = Ept::identity_4kb(4, AccessType::read_write_execute());
    assert_eq!(
        ept.set_page_access(5 * 4096, AccessType::read_write()),
        Err(HypervisorError::Resolution)
    );
    assert_eq!(
        ept.remap_page(5 * 4096, 77, AccessType::execute_only()),
        Err(HypervisorError::Resolution)
    );
    let entry = ept.entry_for(3 * 4096).unwrap();
    assert_eq!(entry.frame, 3);
}

#[test]
fn remap_page_repoints_the_frame() {
    let mut ept = Ept::identity_4kb(4, AccessType::read_write_execute());
    assert_eq!(ept.remap_page(3 * 4096, 42, AccessType::execute_only()), Ok(()));
    let entry = ept.entry_for(3 * 4096).unwrap();
    assert_eq!(entry.frame, 42);
    assert!(!entry.access.read && !entry.access.write && entry.access.execute);
}
