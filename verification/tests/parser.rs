use xipdriver_rs::errors::Error;
use xipdriver_rs::hwh_parser::{
    build_topology, memrange_span, parse_with_prefix, MemRangeNode, ModuleNode,
};
use xipdriver_rs::hwinfo::{match_hw, HwEntry};

#[test]
fn parse_with_prefix_test() {
    assert_eq!(parse_with_prefix("1").unwrap(), 1);
    assert_eq!(parse_with_prefix("01").unwrap(), 1);
    assert_eq!(parse_with_prefix("12").unwrap(), 12);
    assert_eq!(parse_with_prefix("0120").unwrap(), 120);
    assert_eq!(parse_with_prefix("120").unwrap(), 120);
    assert_eq!(parse_with_prefix("0b1111000").unwrap(), 120);
    assert_eq!(parse_with_prefix("0o170").unwrap(), 120);
    assert_eq!(parse_with_prefix("0x78").unwrap(), 120);
    parse_with_prefix("x078").unwrap_err();
    parse_with_prefix("00x078").unwrap_err();
    parse_with_prefix("0x").unwrap_err();
    parse_with_prefix("0z").unwrap_err();
}

#[test]
fn parse_with_prefix_radix_variants() {
    assert_eq!(parse_with_prefix("0X78").unwrap(), 120);
    assert_eq!(parse_with_prefix("0B1111000").unwrap(), 120);
    assert_eq!(parse_with_prefix("0O170").unwrap(), 120);
    assert_eq!(parse_with_prefix("0xFF").unwrap(), 255);
    assert_eq!(parse_with_prefix("0xff").unwrap(), 255);
    assert_eq!(parse_with_prefix("0").unwrap(), 0);
    assert_eq!(parse_with_prefix("").unwrap_err(), Error::Parse);
    assert_eq!(parse_with_prefix("0b2").unwrap_err(), Error::Parse);
    assert_eq!(parse_with_prefix("0o8").unwrap_err(), Error::Parse);
    assert_eq!(parse_with_prefix("abc").unwrap_err(), Error::Parse);
}

#[test]
fn parse_with_prefix_requires_a_zero_led_prefix() {
    // A radix letter in second place selects nothing unless the literal
    // starts with the zero of a 0b/0o/0x prefix: these fall to the
    // decimal path and fail there.
    assert_eq!(parse_with_prefix("1x78").unwrap_err(), Error::Parse);
    assert_eq!(parse_with_prefix("9b101").unwrap_err(), Error::Parse);
    assert_eq!(parse_with_prefix("2o17").unwrap_err(), Error::Parse);
    assert_eq!(parse_with_prefix("ax78").unwrap_err(), Error::Parse);
}

#[test]
fn memrange_span_computes_base_and_size() {
    let (base, size) = memrange_span("0x1000", "0x1FFF").unwrap();
    assert_eq!(base, 0x1000);
    assert_eq!(size, 0x1000);
    let (base, size) = memrange_span("0", "0").unwrap();
    assert_eq!(base, 0);
    assert_eq!(size, 1);
    assert_eq!(memrange_span("0x2000", "0x1FFF").unwrap_err(), Error::Configuration);
    assert_eq!(memrange_span("0zz", "0x1FFF").unwrap_err(), Error::Parse);
    assert_eq!(memrange_span("0x1000", "").unwrap_err(), Error::Parse);
}

fn module(inst: &str, fullname: &str, vlnv: &str) -> ModuleNode {
    ModuleNode {
        instance: Some(inst.to_string()),
        fullname: Some(fullname.to_string()),
        vlnv: Some(vlnv.to_string()),
        bdtype: None,
    }
}

fn memrange(inst: &str, base: &str, high: &str) -> MemRangeNode {
    MemRangeNode {
        instance: Some(inst.to_string()),
        base_value: Some(base.to_string()),
        high_value: Some(high.to_string()),
    }
}

#[test]
fn topology_resolves_and_looks_up() {
    let modules = vec![
        module("dma_0", "/dma_0", "xilinx.com:ip:axi_dma:7.1"),
        module("vdma_0", "/video/vdma_0", "xilinx.com:ip:axi_vdma:6.3"),
    ];
    let memranges = vec![
        memrange("dma_0", "0x40400000", "0x4040FFFF"),
        memrange("vdma_0", "0x43000000", "0x4300FFFF"),
        memrange("ghost_inst", "0x0", "0xFFF"),
    ];
    let topo = build_topology(&modules, &memranges).unwrap();
    assert_eq!(topo.len(), 2);
    let ip = topo.lookup("/dma_0").unwrap();
    assert_eq!(ip.instname, "dma_0");
    assert_eq!(ip.vlnv, "xilinx.com:ip:axi_dma:7.1");
    assert_eq!(ip.bdtype, "");
    assert_eq!(ip.phys_addr, 0x40400000);
    assert_eq!(ip.addr_range, 0x10000);
    let ip = topo.lookup("/video/vdma_0").unwrap();
    assert_eq!(ip.phys_addr, 0x43000000);
    assert_eq!(topo.lookup("/nothing").unwrap_err(), Error::NotFound);
}

#[test]
fn topology_last_entry_wins() {
    let modules = vec![module("a", "/a", "v:l:n:1")];
    let memranges = vec![memrange("a", "0x0", "0xFFF"), memrange("a", "0x1000", "0x1FFF")];
    let topo = build_topology(&modules, &memranges).unwrap();
    assert_eq!(topo.len(), 1);
    let ip = topo.lookup("/a").unwrap();
    assert_eq!(ip.phys_addr, 0x1000);
}

#[test]
fn topology_rejects_bad_records() {
    let incomplete = vec![ModuleNode {
        instance: Some("a".to_string()),
        fullname: None,
        vlnv: Some("v".to_string()),
        bdtype: None,
    }];
    assert_eq!(
        build_topology(&incomplete, &Vec::new()).unwrap_err(),
        Error::Configuration
    );
    let modules = vec![module("a", "/a", "v:l:n:1")];
    let bad_literal = vec![memrange("a", "0xZZ", "0xFFF")];
    assert_eq!(build_topology(&modules, &bad_literal).unwrap_err(), Error::Parse);
    let inverted = vec![memrange("a", "0x1000", "0x1")];
    assert_eq!(build_topology(&modules, &inverted).unwrap_err(), Error::Configuration);
}

#[test]
fn match_hw_finds_first_matching_key() {
    let entries = vec![
        HwEntry { key: "/lane/v_frmbuf_rd".to_string(), name: Some("v_frmbuf_rd".to_string()) },
        HwEntry { key: "/lane/detector".to_string(), name: Some("umv_lane_detector".to_string()) },
        HwEntry { key: "/other/detector".to_string(), name: Some("umv_lane_detector".to_string()) },
    ];
    assert_eq!(match_hw(&entries, "/lane", "umv_lane_detector").unwrap(), "/lane/detector");
    assert_eq!(
        match_hw(&entries, "/other", "umv_lane_detector").unwrap(),
        "/other/detector"
    );
    assert_eq!(
        match_hw(&entries, "/lane", "missing_block").unwrap_err(),
        Error::NotFound
    );
    let nameless = vec![HwEntry { key: "/lane/x".to_string(), name: None }];
    assert_eq!(
        match_hw(&nameless, "/lane", "anything").unwrap_err(),
        Error::Configuration
    );
}
