use injection::memory::{apply_writes, MemoryImage, MemoryPermission, PatchWrite};
use injection::patch::{build_trampoline, install_hook, HookBinding, HookMap};
use injection::privilege::{with_writable_code, Os, ScopeEvent};
use injection::PatchError;

const BASE: u32 = 0x10_0000;

fn fresh_region(len: usize, perm: MemoryPermission) -> MemoryImage {
    MemoryImage::new(BASE, perm, vec![0x1111_1111; len])
}

fn snapshot(region: &MemoryImage) -> Vec<u32> {
    let mut words = Vec::new();
    let mut addr = region.base();
    for _ in 0..region.len() {
        words.push(region.read_word(addr));
        addr += 4;
    }
    words
}

#[test]
fn permission_codes_match_the_host_convention() {
    assert_eq!(MemoryPermission::NoAccess.code(), 0);
    assert_eq!(MemoryPermission::ReadWrite.code(), 3);
    assert_eq!(MemoryPermission::ReadExecute.code(), 5);
    assert_eq!(MemoryPermission::ReadWriteExecute.code(), 7);
}

#[test]
fn write_word_changes_only_its_target() {
    let mut region = fresh_region(8, MemoryPermission::ReadWrite);
    region.write_word(BASE + 8, 0xDEAD_BEEF);
    assert_eq!(region.read_word(BASE + 8), 0xDEAD_BEEF);
    assert_eq!(region.read_word(BASE), 0x1111_1111);
    assert_eq!(region.read_word(BASE + 4), 0x1111_1111);
    assert_eq!(region.read_word(BASE + 12), 0x1111_1111);
}

#[test]
fn write_words_places_a_block() {
    let mut region = fresh_region(8, MemoryPermission::ReadWrite);
    region.write_words(BASE + 4, &vec![10, 20, 30]);
    assert_eq!(region.read_word(BASE), 0x1111_1111);
    assert_eq!(region.read_word(BASE + 4), 10);
    assert_eq!(region.read_word(BASE + 8), 20);
    assert_eq!(region.read_word(BASE + 12), 30);
    assert_eq!(region.read_word(BASE + 16), 0x1111_1111);
}

#[test]
fn apply_writes_out_of_range_is_atomic() {
    let mut region = fresh_region(4, MemoryPermission::ReadWrite);
    let writes = vec![
        PatchWrite { addr: BASE, word: 1 },
        PatchWrite { addr: BASE + 16, word: 2 },
    ];
    assert_eq!(apply_writes(&mut region, &writes), Err(PatchError::OutOfRange));
    assert_eq!(region.read_word(BASE), 0x1111_1111);
}

#[test]
fn apply_writes_rejects_unaligned_address() {
    let mut region = fresh_region(4, MemoryPermission::ReadWrite);
    let writes = vec![PatchWrite { addr: BASE + 2, word: 1 }];
    assert_eq!(apply_writes(&mut region, &writes), Err(PatchError::OutOfRange));
    assert_eq!(snapshot(&region), vec![0x1111_1111; 4]);
}

#[test]
fn writable_scope_runs_calls_in_order() {
    let mut os = Os::new(vec![0, 0, 0, 0, 0]);
    let mut region = fresh_region(4, MemoryPermission::ReadExecute);
    let writes = vec![PatchWrite { addr: BASE + 4, word: 7 }];
    let r = with_writable_code(&mut os, &mut region, &writes);
    assert_eq!(r, Ok(()));
    assert_eq!(
        os.event_log(),
        &vec![
            ScopeEvent::Acquire,
            ScopeEvent::SetPermission(MemoryPermission::ReadWrite),
            ScopeEvent::BodyRun,
            ScopeEvent::SetPermission(MemoryPermission::ReadExecute),
            ScopeEvent::Release,
        ]
    );
    assert_eq!(region.read_word(BASE + 4), 7);
    assert_eq!(region.permission(), MemoryPermission::ReadExecute);
}

#[test]
fn writable_scope_restores_and_releases_after_body_failure() {
    let mut os = Os::new(vec![0, 0, 0, 0, 0]);
    let mut region = fresh_region(4, MemoryPermission::ReadExecute);
    let writes = vec![PatchWrite { addr: BASE + 64, word: 7 }];
    let r = with_writable_code(&mut os, &mut region, &writes);
    assert_eq!(r, Err(PatchError::OutOfRange));
    // The restore and the release still run, in order, after the failed body.
    assert_eq!(
        os.event_log(),
        &vec![
            ScopeEvent::Acquire,
            ScopeEvent::SetPermission(MemoryPermission::ReadWrite),
            ScopeEvent::BodyRun,
            ScopeEvent::SetPermission(MemoryPermission::ReadExecute),
            ScopeEvent::Release,
        ]
    );
    assert_eq!(snapshot(&region), vec![0x1111_1111; 4]);
    assert_eq!(region.permission(), MemoryPermission::ReadExecute);
}

#[test]
fn writable_scope_surfaces_acquire_failure() {
    let mut os = Os::new(vec![0xD901, 0, 0, 0, 0]);
    let mut region = fresh_region(4, MemoryPermission::ReadExecute);
    let writes = vec![PatchWrite { addr: BASE, word: 7 }];
    let r = with_writable_code(&mut os, &mut region, &writes);
    assert_eq!(r, Err(PatchError::OsCallFailed(0xD901)));
    assert!(os.event_log().is_empty());
    assert_eq!(region.read_word(BASE), 0x1111_1111);
    assert_eq!(region.permission(), MemoryPermission::ReadExecute);
}

#[test]
fn writable_scope_skips_body_when_set_writable_fails() {
    let mut os = Os::new(vec![0, 0, 9, 0, 0]);
    let mut region = fresh_region(4, MemoryPermission::ReadExecute);
    let writes = vec![PatchWrite { addr: BASE, word: 7 }];
    let r = with_writable_code(&mut os, &mut region, &writes);
    assert_eq!(r, Err(PatchError::OsCallFailed(9)));
    assert_eq!(
        os.event_log(),
        &vec![
            ScopeEvent::Acquire,
            ScopeEvent::SetPermission(MemoryPermission::ReadWrite),
            ScopeEvent::SetPermission(MemoryPermission::ReadExecute),
            ScopeEvent::Release,
        ]
    );
    assert_eq!(region.read_word(BASE), 0x1111_1111);
}

#[test]
fn writable_scope_body_error_outranks_restore_error() {
    let mut os = Os::new(vec![0, 0, 0, 5, 0]);
    let mut region = fresh_region(4, MemoryPermission::ReadExecute);
    let writes = vec![PatchWrite { addr: BASE + 64, word: 7 }];
    let r = with_writable_code(&mut os, &mut region, &writes);
    assert_eq!(r, Err(PatchError::OutOfRange));
    // The region stays writable: the restore call failed.
    assert_eq!(region.permission(), MemoryPermission::ReadWrite);
}

#[test]
fn writable_scope_surfaces_restore_failure_after_successful_body() {
    let mut os = Os::new(vec![0, 0, 0, 5, 0]);
    let mut region = fresh_region(4, MemoryPermission::ReadExecute);
    let writes = vec![PatchWrite { addr: BASE, word: 7 }];
    let r = with_writable_code(&mut os, &mut region, &writes);
    assert_eq!(r, Err(PatchError::OsCallFailed(5)));
    // The body's writes landed before the restore failed.
    assert_eq!(region.read_word(BASE), 7);
}

#[test]
fn trampoline_block_words() {
    let t = build_trampoline(0x0030_0000);
    assert_eq!(t.load_literal, 0xE59F_C000);
    assert_eq!(t.branch_exchange, 0xE12F_FF1C);
    assert_eq!(t.handler_addr, 0x0030_0000);
}

#[test]
fn install_hook_writes_the_trampoline() {
    let mut os = Os::new(vec![0, 0, 0, 0, 0]);
    let mut region = fresh_region(8, MemoryPermission::ReadExecute);
    let r = install_hook(&mut os, &mut region, BASE + 8, 0x0030_0000);
    assert_eq!(r, Ok(()));
    assert_eq!(region.read_word(BASE + 8), 0xE59F_C000);
    assert_eq!(region.read_word(BASE + 12), 0xE12F_FF1C);
    assert_eq!(region.read_word(BASE + 16), 0x0030_0000);
    assert_eq!(region.read_word(BASE + 4), 0x1111_1111);
    assert_eq!(region.read_word(BASE + 20), 0x1111_1111);
}

#[test]
fn install_hook_twice_is_byte_identical() {
    let mut os = Os::new(vec![0; 10]);
    let mut region = fresh_region(8, MemoryPermission::ReadExecute);
    assert_eq!(install_hook(&mut os, &mut region, BASE + 8, 0x0030_0000), Ok(()));
    let once = snapshot(&region);
    assert_eq!(install_hook(&mut os, &mut region, BASE + 8, 0x0030_0000), Ok(()));
    assert_eq!(snapshot(&region), once);
}

#[test]
fn install_hook_rejects_site_near_address_top() {
    let mut os = Os::new(vec![0; 5]);
    let mut region = fresh_region(8, MemoryPermission::ReadExecute);
    let r = install_hook(&mut os, &mut region, u32::MAX - 4, 0x0030_0000);
    assert_eq!(r, Err(PatchError::OutOfRange));
    assert!(os.event_log().is_empty());
}

#[test]
fn hook_dispatch_recognizes_listed_callers() {
    let map = HookMap::new(vec![
        HookBinding { caller_addr: 0x0024_2400, handler_addr: 0x0030_0000 },
        HookBinding { caller_addr: 0x0024_24A0, handler_addr: 0x0030_0040 },
    ]);
    assert_eq!(map.dispatch(0x0024_2400), Some(0x0030_0000));
    assert_eq!(map.dispatch(0x0024_24A0), Some(0x0030_0040));
}

#[test]
fn hook_dispatch_falls_through_for_unknown_callers() {
    let map = HookMap::new(vec![HookBinding { caller_addr: 0x0024_2400, handler_addr: 0x0030_0000 }]);
    assert_eq!(map.dispatch(0x0011_0000), None);
    assert_eq!(HookMap::new(Vec::new()).dispatch(0x0024_2400), None);
}

#[test]
fn hook_dispatch_first_binding_wins() {
    let map = HookMap::new(vec![
        HookBinding { caller_addr: 0x0024_2400, handler_addr: 0x0030_0000 },
        HookBinding { caller_addr: 0x0024_2400, handler_addr: 0x0031_0000 },
    ]);
    assert_eq!(map.dispatch(0x0024_2400), Some(0x0030_0000));
}
