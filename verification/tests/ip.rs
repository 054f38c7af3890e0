use scaleway::Ip;

#[test]
fn ip_reads_dotted_addresses() {
    assert_eq!(Ip::parse("1.2.3.4"), Some(Ip::V4(1, 2, 3, 4)));
    assert_eq!(Ip::parse("0.0.0.0"), Some(Ip::V4(0, 0, 0, 0)));
    assert_eq!(Ip::parse("255.255.255.255"), Some(Ip::V4(255, 255, 255, 255)));
    assert_eq!(Ip::parse("10.200.30.4"), Some(Ip::V4(10, 200, 30, 4)));
}

#[test]
fn ip_refuses_bad_dotted_addresses() {
    assert_eq!(Ip::parse(""), None);
    assert_eq!(Ip::parse("1.2.3"), None);
    assert_eq!(Ip::parse("1.2.3.4.5"), None);
    assert_eq!(Ip::parse("1.2.3.4."), None);
    assert_eq!(Ip::parse(".1.2.3.4"), None);
    assert_eq!(Ip::parse("1..3.4"), None);
    assert_eq!(Ip::parse("256.1.1.1"), None);
    assert_eq!(Ip::parse("01.2.3.4"), None);
    assert_eq!(Ip::parse("1.2.3.00"), None);
    assert_eq!(Ip::parse("1.2.3.0004"), None);
    assert_eq!(Ip::parse(" 1.2.3.4"), None);
    assert_eq!(Ip::parse("1.2.3.4 "), None);
    assert_eq!(Ip::parse("a.b.c.d"), None);
    assert_eq!(Ip::parse("1.2.3.-4"), None);
}

#[test]
fn ip_reads_grouped_addresses() {
    assert_eq!(Ip::parse("1:2:3:4:5:6:7:8"), Some(Ip::V6(1, 2, 3, 4, 5, 6, 7, 8)));
    assert_eq!(
        Ip::parse("2001:0db8:85a3:0000:0000:8a2e:0370:7334"),
        Some(Ip::V6(0x2001, 0x0db8, 0x85a3, 0, 0, 0x8a2e, 0x0370, 0x7334))
    );
    assert_eq!(
        Ip::parse("FFFF:ffff:AbCd:0:0:0:0:1"),
        Some(Ip::V6(0xffff, 0xffff, 0xabcd, 0, 0, 0, 0, 1))
    );
}

#[test]
fn ip_reads_a_pair_of_colons_as_zeros() {
    assert_eq!(Ip::parse("::"), Some(Ip::V6(0, 0, 0, 0, 0, 0, 0, 0)));
    assert_eq!(Ip::parse("::1"), Some(Ip::V6(0, 0, 0, 0, 0, 0, 0, 1)));
    assert_eq!(Ip::parse("1::"), Some(Ip::V6(1, 0, 0, 0, 0, 0, 0, 0)));
    assert_eq!(
        Ip::parse("2001:db8::ff00:42:8329"),
        Some(Ip::V6(0x2001, 0xdb8, 0, 0, 0, 0xff00, 0x42, 0x8329))
    );
    assert_eq!(Ip::parse("1:2:3:4:5:6:7::"), Some(Ip::V6(1, 2, 3, 4, 5, 6, 7, 0)));
    assert_eq!(Ip::parse("::2:3:4:5:6:7:8"), Some(Ip::V6(0, 2, 3, 4, 5, 6, 7, 8)));
    assert_eq!(Ip::parse("1:2:3::6:7:8"), Some(Ip::V6(1, 2, 3, 0, 0, 6, 7, 8)));
}

#[test]
fn ip_reads_a_dotted_tail() {
    assert_eq!(Ip::parse("::ffff:1.2.3.4"), Some(Ip::V6(0, 0, 0, 0, 0, 0xffff, 0x0102, 0x0304)));
    assert_eq!(Ip::parse("::1.2.3.4"), Some(Ip::V6(0, 0, 0, 0, 0, 0, 0x0102, 0x0304)));
    assert_eq!(
        Ip::parse("1:2:3:4:5:6:255.254.253.252"),
        Some(Ip::V6(1, 2, 3, 4, 5, 6, 0xfffe, 0xfdfc))
    );
    assert_eq!(Ip::parse("64:ff9b::192.0.2.33"), Some(Ip::V6(0x64, 0xff9b, 0, 0, 0, 0, 0xc000, 0x0221)));
}

#[test]
fn ip_refuses_bad_grouped_addresses() {
    assert_eq!(Ip::parse(":"), None);
    assert_eq!(Ip::parse(":::"), None);
    assert_eq!(Ip::parse("1:2:3:4:5:6:7"), None);
    assert_eq!(Ip::parse("1:2:3:4:5:6:7:8:9"), None);
    assert_eq!(Ip::parse("1:2:3:4:5:6:7:8::"), None);
    assert_eq!(Ip::parse("::1:2:3:4:5:6:7:8"), None);
    assert_eq!(Ip::parse("1:2:3:4::5:6:7:8"), None);
    assert_eq!(Ip::parse("1::2::3"), None);
    assert_eq!(Ip::parse("12345::"), None);
    assert_eq!(Ip::parse("g::"), None);
    assert_eq!(Ip::parse(":1:2:3:4:5:6:7"), None);
    assert_eq!(Ip::parse("1:2:3:4:5:6:7:"), None);
    assert_eq!(Ip::parse("1.2.3.4::"), None);
    assert_eq!(Ip::parse("::1.2.3.4:5"), None);
    assert_eq!(Ip::parse("1:2:3:4:5:6:7:1.2.3.4"), None);
    assert_eq!(Ip::parse("::1.2.3"), None);
    assert_eq!(Ip::parse("::1.2.3.256"), None);
    assert_eq!(Ip::parse("fe80::1%eth0"), None);
    assert_eq!(Ip::parse("[::1]"), None);
}
