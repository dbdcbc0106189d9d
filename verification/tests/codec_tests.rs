use blend2d::codec::{best_scoring_codec, codec_index_by_name, split_extensions};

#[test]
fn best_scoring_codec_picks_first_highest() {
    assert_eq!(best_scoring_codec(&[0, 3, 7, 7, 1]), Some(2));
    assert_eq!(best_scoring_codec(&[5]), Some(0));
}

#[test]
fn best_scoring_codec_ignores_zero_scores() {
    assert_eq!(best_scoring_codec(&[0, 0, 0]), None);
    assert_eq!(best_scoring_codec(&[]), None);
}

#[test]
fn array_search_by_data_picks_first_highest_and_ignores_zero_scores() {
    assert_eq!(best_scoring_codec(&[0, 3, 7, 7, 1]), Some(2));
    assert_eq!(best_scoring_codec(&[0, 0]), None);
}

#[test]
fn codec_found_by_name() {
    let names = ["BMP", "PNG", "JPEG", "PNG"];
    assert_eq!(codec_index_by_name(&names, "PNG"), Some(1));
    assert_eq!(codec_index_by_name(&names, "JPEG"), Some(2));
    assert_eq!(codec_index_by_name(&names, "GIF"), None);
    assert_eq!(codec_index_by_name(&names, "png"), None);
    assert_eq!(codec_index_by_name(&[], "BMP"), None);
}

#[test]
fn extensions_split_at_bars() {
    assert_eq!(split_extensions("jpg|jpeg|jfif"), vec!["jpg", "jpeg", "jfif"]);
    assert_eq!(split_extensions("bmp"), vec!["bmp"]);
}

#[test]
fn extensions_split_keeps_empty_pieces() {
    assert_eq!(split_extensions(""), vec![""]);
    assert_eq!(split_extensions("png|"), vec!["png", ""]);
    assert_eq!(split_extensions("|"), vec!["", ""]);
}

#[test]
fn extensions_joined_again_give_the_list() {
    let list = "ras|rs|sun|täst";
    assert_eq!(split_extensions(list).join("|"), list);
}
