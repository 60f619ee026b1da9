use tandem::Dimensions;

#[test]
fn dimensions_hold_what_they_were_given() {
    let d = Dimensions::new(500u32, 400u32);
    assert_eq!(*d.get_width(), 500);
    assert_eq!(*d.get_height(), 400);
}

#[test]
fn set_width_leaves_the_height() {
    let mut d = Dimensions::new(1i64, 2i64);
    d.set_width(-9);
    assert_eq!(*d.get_width(), -9);
    assert_eq!(*d.get_height(), 2);
}

#[test]
fn set_height_leaves_the_width() {
    let mut d = Dimensions::new("w".to_string(), "h".to_string());
    d.set_height("tall".to_string());
    assert_eq!(d.get_width().as_str(), "w");
    assert_eq!(d.get_height().as_str(), "tall");
}
