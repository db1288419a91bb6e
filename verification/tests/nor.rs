use imxrt_boot_gen::flexspi;
use imxrt_boot_gen::serial_flash::nor::ChipFamily;
use imxrt_boot_gen::serial_flash::nor::ConfigurationBlock;
use imxrt_boot_gen::serial_flash::nor::SerialClockFrequency;

#[test]
fn smoke() {
    let _cfg = ConfigurationBlock::new(flexspi::ConfigurationBlock::new())
        .page_size(256)
        .sector_size(4095)
        .ip_cmd_serial_clk_freq(ChipFamily::Imxrt1060, SerialClockFrequency::MHz30);
}

#[test]
fn serial_clk_freq() {
    assert_eq!(SerialClockFrequency::MHz80.encoding(ChipFamily::Imxrt500), 4);
    assert_eq!(SerialClockFrequency::MHz166.encoding(ChipFamily::Imxrt500), 8);
}

#[test]
fn nor_serial_clk_freq() {
    assert_eq!(SerialClockFrequency::MHz133.encoding(ChipFamily::Imxrt1010), 7);
}

#[test]
fn record_is_512_bytes() {
    let cfg = ConfigurationBlock::new(flexspi::ConfigurationBlock::new());
    assert_eq!(cfg.to_bytes().len(), 512);
    let cfg = cfg
        .page_size(256)
        .sector_size(4096)
        .ip_cmd_serial_clk_freq(ChipFamily::Imxrt1010, SerialClockFrequency::MHz100);
    assert_eq!(cfg.to_bytes().len(), 512);
}

#[test]
fn new_leaves_unset_fields_zero() {
    let mut raw = vec![0u8; 448];
    for (i, b) in raw.iter_mut().enumerate() {
        *b = (i % 251) as u8;
    }
    let expected = raw.clone();
    let cfg = ConfigurationBlock::new(flexspi::ConfigurationBlock::from_bytes(raw));
    let bytes = cfg.to_bytes();
    assert_eq!(bytes.len(), 512);
    for (i, b) in bytes.iter().enumerate() {
        if i == 68 {
            assert_eq!(*b, 1);
        } else if i < 448 {
            assert_eq!(*b, expected[i]);
        } else {
            assert_eq!(*b, 0);
        }
    }
}

#[test]
fn device_type_forced() {
    let mut raw = vec![0u8; 448];
    raw[68] = 0xAA;
    let cfg = ConfigurationBlock::new(flexspi::ConfigurationBlock::from_bytes(raw));
    assert_eq!(cfg.to_bytes()[68], 1);
}

#[test]
fn setter_order_independent() {
    let a = ConfigurationBlock::new(flexspi::ConfigurationBlock::new())
        .page_size(256)
        .sector_size(4096);
    let b = ConfigurationBlock::new(flexspi::ConfigurationBlock::new())
        .sector_size(4096)
        .page_size(256);
    assert_eq!(a.to_bytes(), b.to_bytes());
}

#[test]
fn scenario_page_sector_freq() {
    let bytes = ConfigurationBlock::new(flexspi::ConfigurationBlock::new())
        .page_size(256)
        .sector_size(4096)
        .ip_cmd_serial_clk_freq(ChipFamily::Imxrt1060, SerialClockFrequency::MHz30)
        .to_bytes();
    assert_eq!(bytes.len(), 512);
    // page size 256, little-endian, at its fixed offset
    assert_eq!(&bytes[448..452], &[0, 1, 0, 0]);
    // sector size 4096, little-endian
    assert_eq!(&bytes[452..456], &[0, 16, 0, 0]);
    // the family's 30 MHz code is 1
    assert_eq!(&bytes[456..460], &[1, 0, 0, 0]);
    // reserved tail stays zero
    assert!(bytes[460..].iter().all(|b| *b == 0));
}

#[test]
fn clock_encoding_table() {
    let families = [
        ChipFamily::Imxrt1010,
        ChipFamily::Imxrt1060,
        ChipFamily::Imxrt1064,
        ChipFamily::Imxrt500,
    ];
    for family in families {
        assert_eq!(SerialClockFrequency::NoChange.encoding(family), 0);
        assert_eq!(SerialClockFrequency::MHz30.encoding(family), 1);
        assert_eq!(SerialClockFrequency::MHz50.encoding(family), 2);
        assert_eq!(SerialClockFrequency::MHz60.encoding(family), 3);
    }
    assert_eq!(SerialClockFrequency::MHz75.encoding(ChipFamily::Imxrt1010), 4);
    assert_eq!(SerialClockFrequency::MHz80.encoding(ChipFamily::Imxrt1010), 5);
    assert_eq!(SerialClockFrequency::MHz100.encoding(ChipFamily::Imxrt1010), 6);
    assert_eq!(SerialClockFrequency::MHz75.encoding(ChipFamily::Imxrt1060), 4);
    assert_eq!(SerialClockFrequency::MHz80.encoding(ChipFamily::Imxrt1060), 5);
    assert_eq!(SerialClockFrequency::MHz100.encoding(ChipFamily::Imxrt1060), 6);
    assert_eq!(SerialClockFrequency::MHz120.encoding(ChipFamily::Imxrt1060), 7);
    assert_eq!(SerialClockFrequency::MHz133.encoding(ChipFamily::Imxrt1060), 8);
    assert_eq!(SerialClockFrequency::MHz166.encoding(ChipFamily::Imxrt1060), 9);
    assert_eq!(SerialClockFrequency::MHz120.encoding(ChipFamily::Imxrt1064), 7);
    assert_eq!(SerialClockFrequency::MHz133.encoding(ChipFamily::Imxrt1064), 8);
    assert_eq!(SerialClockFrequency::MHz166.encoding(ChipFamily::Imxrt1064), 9);
    assert_eq!(SerialClockFrequency::MHz80.encoding(ChipFamily::Imxrt500), 4);
    assert_eq!(SerialClockFrequency::MHz100.encoding(ChipFamily::Imxrt500), 5);
    assert_eq!(SerialClockFrequency::MHz120.encoding(ChipFamily::Imxrt500), 6);
    assert_eq!(SerialClockFrequency::MHz133.encoding(ChipFamily::Imxrt500), 7);
}

#[test]
fn unsupported_tiers() {
    assert!(!SerialClockFrequency::MHz75.supported(ChipFamily::Imxrt500));
    assert!(!SerialClockFrequency::MHz120.supported(ChipFamily::Imxrt1010));
    assert!(!SerialClockFrequency::MHz166.supported(ChipFamily::Imxrt1010));
    assert!(SerialClockFrequency::MHz75.supported(ChipFamily::Imxrt1010));
    assert!(SerialClockFrequency::MHz120.supported(ChipFamily::Imxrt500));
    assert!(SerialClockFrequency::MHz166.supported(ChipFamily::Imxrt1064));
    assert!(SerialClockFrequency::NoChange.supported(ChipFamily::Imxrt500));
}

#[test]
fn setters_overwrite() {
    let bytes = ConfigurationBlock::new(flexspi::ConfigurationBlock::new())
        .page_size(512)
        .page_size(256)
        .to_bytes();
    assert_eq!(&bytes[448..452], &[0, 1, 0, 0]);
}

#[test]
fn primitive_bytes_round_trip() {
    let mut raw = vec![0u8; 448];
    for (i, b) in raw.iter_mut().enumerate() {
        *b = (i % 7) as u8;
    }
    let expected = raw.clone();
    let primitive = flexspi::ConfigurationBlock::from_bytes(raw);
    assert_eq!(primitive.to_bytes(), expected);
}
