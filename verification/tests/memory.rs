use flashgate::memory::{classify, MemoryRegion, RegionKind};
use flashgate::session::{prepare_classification, PrepareError};

fn region(kind: RegionKind, name: &str, start: u64, length: u64) -> MemoryRegion {
    MemoryRegion { kind, name: Some(name.to_owned()), start, length }
}

#[test]
fn classify_empty_input() {
    let c = classify(Vec::new());
    assert!(c.ram.is_empty());
    assert!(c.non_volatile.is_empty());
    assert!(c.generic.is_empty());
}

#[test]
fn classify_partitions_by_tag() {
    let regions = vec![
        region(RegionKind::Ram, "sram", 0x2000_0000, 0x1_0000),
        region(RegionKind::NonVolatile, "flash", 0x0800_0000, 0x4_0000),
        region(RegionKind::Generic, "periph", 0x4000_0000, 0x10_0000),
        region(RegionKind::Ram, "ccm", 0x1000_0000, 0x2000),
    ];
    let c = classify(regions);
    assert_eq!(c.ram.len(), 2);
    assert_eq!(c.non_volatile.len(), 1);
    assert_eq!(c.generic.len(), 1);
    assert_eq!(c.ram.len() + c.non_volatile.len() + c.generic.len(), 4);
    for r in &c.ram {
        assert_eq!(r.kind, RegionKind::Ram);
    }
    for r in &c.non_volatile {
        assert_eq!(r.kind, RegionKind::NonVolatile);
    }
    for r in &c.generic {
        assert_eq!(r.kind, RegionKind::Generic);
    }
}

#[test]
fn classify_preserves_declaration_order() {
    let regions = vec![
        region(RegionKind::Ram, "a", 1, 1),
        region(RegionKind::Ram, "b", 2, 1),
        region(RegionKind::NonVolatile, "c", 3, 1),
        region(RegionKind::Ram, "d", 4, 1),
        region(RegionKind::NonVolatile, "e", 5, 1),
    ];
    let c = classify(regions);
    let ram_names: Vec<&str> = c.ram.iter().map(|r| r.name.as_deref().unwrap()).collect();
    assert_eq!(ram_names, ["a", "b", "d"]);
    let nvm_names: Vec<&str> = c.non_volatile.iter().map(|r| r.name.as_deref().unwrap()).collect();
    assert_eq!(nvm_names, ["c", "e"]);
    let ram_starts: Vec<u64> = c.ram.iter().map(|r| r.start).collect();
    assert_eq!(ram_starts, [1, 2, 4]);
}

#[test]
fn prepare_accepts_one_ram_one_flash() {
    let regions = vec![
        region(RegionKind::Ram, "sram", 0x2000_0000, 64 * 1024),
        region(RegionKind::NonVolatile, "flash", 0x0800_0000, 256 * 1024),
    ];
    let c = prepare_classification(regions).unwrap();
    assert_eq!(c.ram.len(), 1);
    assert_eq!(c.non_volatile.len(), 1);
    assert_eq!(c.generic.len(), 0);
    assert_eq!(c.ram[0].start, 0x2000_0000);
    assert_eq!(c.ram[0].length, 65536);
    assert_eq!(c.non_volatile[0].start, 0x0800_0000);
    assert_eq!(c.non_volatile[0].length, 262144);
}

#[test]
fn prepare_rejects_missing_flash_region() {
    let regions = vec![region(RegionKind::Ram, "sram", 0x2000_0000, 64 * 1024)];
    let r = prepare_classification(regions);
    assert_eq!(r.err(), Some(PrepareError::NoFlashRegion));
}

#[test]
fn prepare_rejects_missing_ram_region() {
    let regions = vec![region(RegionKind::NonVolatile, "flash", 0x0800_0000, 256 * 1024)];
    let r = prepare_classification(regions);
    assert_eq!(r.err(), Some(PrepareError::NoRamRegion));
}

#[test]
fn prepare_rejects_ambiguous_regions() {
    let two_ram = vec![
        region(RegionKind::Ram, "sram1", 0x2000_0000, 0x1000),
        region(RegionKind::Ram, "sram2", 0x2000_1000, 0x1000),
        region(RegionKind::NonVolatile, "flash", 0x0800_0000, 0x1000),
    ];
    assert_eq!(prepare_classification(two_ram).err(), Some(PrepareError::AmbiguousRamRegion));

    let two_flash = vec![
        region(RegionKind::Ram, "sram", 0x2000_0000, 0x1000),
        region(RegionKind::NonVolatile, "bank1", 0x0800_0000, 0x1000),
        region(RegionKind::NonVolatile, "bank2", 0x0810_0000, 0x1000),
    ];
    assert_eq!(prepare_classification(two_flash).err(), Some(PrepareError::AmbiguousFlashRegion));
}

#[test]
fn prepare_rejects_empty_map() {
    let r = prepare_classification(Vec::new());
    assert_eq!(r.err(), Some(PrepareError::NoRamRegion));
}

#[test]
fn generic_regions_do_not_block_preparation() {
    let regions = vec![
        region(RegionKind::Generic, "periph", 0x4000_0000, 0x1000),
        region(RegionKind::Ram, "sram", 0x2000_0000, 0x1000),
        region(RegionKind::NonVolatile, "flash", 0x0800_0000, 0x1000),
    ];
    let c = prepare_classification(regions).unwrap();
    assert_eq!(c.generic.len(), 1);
    assert_eq!(c.generic[0].name.as_deref(), Some("periph"));
}
