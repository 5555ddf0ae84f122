use mirui::gallery::demos::compact_layout::{
    content_height, content_width, header_direction, header_height, header_width, marker_height, marker_width,
    mode_align, mode_height, mode_width, padding, shell_direction, text_align, title_height, title_width,
};
use mirui::types::{Dimension, Fixed};
use mirui::widget::{FlexDirection, Padding, TextAlign};

fn px(v: i32) -> Fixed {
    Fixed::from_int(v)
}

#[test]
fn landscape_view_stacks_header_beside_content() {
    let (w, h) = (px(240), px(128));
    assert_eq!(shell_direction(w, h), FlexDirection::Row);
    assert_eq!(header_direction(w, h), FlexDirection::Column);
    assert_eq!(header_width(w, h, 60), Dimension::px(60));
    assert_eq!(header_height(w, h), Dimension::percent(100));
    assert_eq!(content_width(w, h), Dimension::Auto);
    assert_eq!(content_height(w, h), Dimension::percent(100));
    assert_eq!((marker_width(w, h), marker_height(w, h)), (Dimension::px(10), Dimension::px(4)));
    assert_eq!((title_width(w, h), title_height(w, h)), (Dimension::percent(100), Dimension::Auto));
    assert_eq!((mode_width(w, h, 50), mode_height(w, h)), (Dimension::percent(100), Dimension::px(12)));
    assert_eq!((text_align(w, h), mode_align(w, h)), (TextAlign::Center, TextAlign::Center));
}

#[test]
fn portrait_view_stacks_header_above_content() {
    let (w, h) = (px(128), px(240));
    assert_eq!(shell_direction(w, h), FlexDirection::Column);
    assert_eq!(header_direction(w, h), FlexDirection::Row);
    assert_eq!(header_width(w, h, 60), Dimension::percent(100));
    assert_eq!(header_height(w, h), Dimension::px(14));
    assert_eq!(content_width(w, h), Dimension::percent(100));
    assert_eq!(content_height(w, h), Dimension::Auto);
    assert_eq!((marker_width(w, h), marker_height(w, h)), (Dimension::px(4), Dimension::px(10)));
    assert_eq!((title_width(w, h), title_height(w, h)), (Dimension::Auto, Dimension::px(14)));
    assert_eq!((mode_width(w, h, 50), mode_height(w, h)), (Dimension::px(50), Dimension::px(14)));
    assert_eq!((text_align(w, h), mode_align(w, h)), (TextAlign::Start, TextAlign::End));
}

#[test]
fn nearly_square_view_counts_as_portrait() {
    // 16 pixels wider than tall is not yet landscape; 17 is
    assert_eq!(shell_direction(px(144), px(128)), FlexDirection::Column);
    assert_eq!(shell_direction(px(145), px(128)), FlexDirection::Row);
}

#[test]
fn padding_narrows_on_small_views() {
    assert_eq!(padding(px(320), px(111), 4, 12), Padding::all(4));
    assert_eq!(padding(px(112), px(320), 4, 12), Padding::all(12));
    assert_eq!(padding(px(128), px(128), 4, 12), Padding { left: 12, top: 12, right: 12, bottom: 12 });
}

#[test]
fn auto_dimension_has_no_length_of_its_own() {
    assert_eq!(Dimension::Auto.resolve(px(200)), Fixed::zero());
}
