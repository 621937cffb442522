use atom::Atom;
use std::cmp::Ordering;

#[test]
fn interned() {
    match Atom::from_str("body") {
        Atom::Static("body") => (),
        _ => panic!("wrong interning"),
    }
}

#[test]
fn not_interned() {
    match Atom::from_str("asdfghjk") {
        Atom::Owned(b) => assert_eq!(b.as_str(), "asdfghjk"),
        _ => panic!("wrong interning"),
    }
}

#[test]
fn as_slice() {
    assert_eq!(Atom::from_str("").as_slice(), "");
    assert_eq!(Atom::from_str("body").as_slice(), "body");
    assert_eq!(Atom::from_str("asdfghjk").as_slice(), "asdfghjk");
}

#[test]
fn into_owned() {
    assert_eq!(Atom::from_str("").into_owned(), String::from(""));
    assert_eq!(Atom::from_str("body").into_owned(), String::from("body"));
    assert_eq!(Atom::from_str("asdfghjk").into_owned(), String::from("asdfghjk"));
}

#[test]
fn to_strbuf() {
    assert_eq!(Atom::from_str("").to_strbuf(), String::from(""));
    assert_eq!(Atom::from_str("body").to_strbuf(), String::from("body"));
    assert_eq!(Atom::from_str("asdfghjk").to_strbuf(), String::from("asdfghjk"));
}

#[test]
fn into_strbuf() {
    assert_eq!(Atom::from_str("").into_strbuf(), String::from(""));
    assert_eq!(Atom::from_str("body").into_strbuf(), String::from("body"));
    assert_eq!(Atom::from_str("asdfghjk").into_strbuf(), String::from("asdfghjk"));
}

#[test]
fn equality() {
    // Equality between interned and non-interned atoms
    assert!(Atom::from_str("body") == Atom::Owned(String::from("body")));
    assert!(Atom::Owned(String::from("body")) == Atom::from_str("body"));
    assert!(Atom::from_str("body") != Atom::Owned(String::from("asdfghjk")));
    assert!(Atom::Owned(String::from("asdfghjk")) != Atom::from_str("body"));
    assert!(Atom::from_str("asdfghjk") != Atom::Owned(String::from("body")));
    assert!(Atom::Owned(String::from("body")) != Atom::from_str("asdfghjk"));
}

#[test]
fn take_from_buf_interned() {
    let mut b = String::from("body");
    let a = Atom::take_from_buf(&mut b);
    assert_eq!(a, Atom::from_str("body"));
    assert_eq!(b, String::new());
}

#[test]
fn take_from_buf_not_interned() {
    let mut b = String::from("asdfghjk");
    let a = Atom::take_from_buf(&mut b);
    assert_eq!(a, Atom::from_str("asdfghjk"));
    assert_eq!(b, String::new());
}

#[test]
fn ord() {
    let check = |x: &str, y: &str| {
        assert_eq!(x < y, Atom::from_str(x) < Atom::from_str(y));
        assert_eq!(x.cmp(y), Atom::from_str(x).cmp(&Atom::from_str(y)));
    };

    check("a", "body");
    check("asdf", "body");
    check("zasdf", "body");
    check("z", "body");

    check("a", "bbbbb");
    check("asdf", "bbbbb");
    check("zasdf", "bbbbb");
    check("z", "bbbbb");
}

#[test]
fn empty_string_is_owned() {
    match Atom::from_str("") {
        Atom::Owned(b) => assert_eq!(b.as_str(), ""),
        _ => panic!("wrong interning"),
    }
}

#[test]
fn from_buf_interned() {
    match Atom::from_buf(String::from("body")) {
        Atom::Static("body") => (),
        _ => panic!("wrong interning"),
    }
}

#[test]
fn from_buf_not_interned() {
    match Atom::from_buf(String::from("asdfghjk")) {
        Atom::Owned(b) => assert_eq!(b.as_str(), "asdfghjk"),
        _ => panic!("wrong interning"),
    }
}

#[test]
fn round_trip_through_slice() {
    for s in ["", "body", "asdfghjk"] {
        let a = Atom::from_str(s);
        let again = Atom::from_str(a.as_slice());
        assert_eq!(a, again);
    }
}

#[test]
fn round_trip_through_owned() {
    for s in ["", "body", "asdfghjk"] {
        let a = Atom::from_str(s);
        let again = Atom::from_buf(Atom::from_str(s).into_owned());
        assert_eq!(a, again);
    }
}

#[test]
fn take_from_buf_empty_slot() {
    let mut b = String::from("");
    let a = Atom::take_from_buf(&mut b);
    assert_eq!(a, Atom::from_str(""));
    assert_eq!(b, String::new());
}

#[test]
fn interning_idempotent() {
    let a1 = Atom::from_str("body");
    let a2 = Atom::from_str("body");
    assert_eq!(a1, a2);
    assert!(matches!(a1, Atom::Static(_)));
    assert!(matches!(a2, Atom::Static(_)));

    let b1 = Atom::from_str("asdfghjk");
    let b2 = Atom::from_str("asdfghjk");
    assert_eq!(b1, b2);
    assert!(matches!(b1, Atom::Owned(_)));
    assert!(matches!(b2, Atom::Owned(_)));
}

#[test]
fn ord_mixed_variants() {
    // table-resident vs owned, in both orders
    assert!(Atom::from_str("asdf") < Atom::from_str("body"));
    assert!(Atom::Owned(String::from("asdf")) < Atom::from_str("body"));
    assert!(Atom::from_str("body") < Atom::Owned(String::from("zasdf")));
    assert!(!(Atom::from_str("zasdf") < Atom::from_str("body")));
    assert!(Atom::Owned(String::from("asdf")) < Atom::Owned(String::from("bbbbb")));
    // two table residents
    assert!(Atom::from_str("a") < Atom::from_str("body"));
    assert!(!(Atom::from_str("body") < Atom::from_str("a")));
}

#[test]
fn cmp_equal_across_variants() {
    assert_eq!(Atom::from_str("body").cmp(&Atom::from_str("body")), Ordering::Equal);
    assert_eq!(Atom::from_str("body").cmp(&Atom::Owned(String::from("body"))), Ordering::Equal);
    assert_eq!(Atom::from_str("a").cmp(&Atom::from_str("body")), Ordering::Less);
    assert_eq!(Atom::from_str("body").cmp(&Atom::from_str("a")), Ordering::Greater);
}
