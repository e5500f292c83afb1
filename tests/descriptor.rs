use rain_sg::error::RainError;
use rain_sg::image_meta::ImageMeta;
use rain_sg::window::{resolve_window, WINDOW_LEN};

const TEN_FIFTEEN: i64 = 28401735; // 2024-01-01 10:15 in minutes

#[test]
fn parses_full_stamp() {
    let meta = ImageMeta::build_from_str("202401011015").unwrap();
    assert_eq!(meta.minutes, TEN_FIFTEEN);
    assert_eq!(meta.image_name(), "202401011015");
    assert_eq!(meta.dir_name(), "20240101");
    assert_eq!(meta.file_name(), "1015");
    assert_eq!(meta.image_path(), "./img/20240101/1015.png");
    assert_eq!(
        meta.url_name(),
        "http://www.weather.gov.sg/files/rainarea/50km/v2/dpsri_70km_2024010110150000dBR.dpsri.png"
    );
}

#[test]
fn refuses_bad_stamps() {
    assert_eq!(ImageMeta::build_from_str("not a time"), Err(RainError::DescriptorParse));
    assert_eq!(ImageMeta::build_from_str("202401011003"), Err(RainError::DescriptorParse));
    assert_eq!(ImageMeta::build_from_str(""), Err(RainError::DescriptorParse));
}

#[test]
fn datetime_on_grid_only() {
    assert_eq!(ImageMeta::build_from_datetime(TEN_FIFTEEN), Ok(ImageMeta { minutes: TEN_FIFTEEN }));
    assert_eq!(ImageMeta::build_from_datetime(TEN_FIFTEEN + 1), Err(RainError::DescriptorParse));
    assert_eq!(ImageMeta::build_from_datetime(i64::MAX - 7), Err(RainError::DescriptorParse));
    assert_eq!(ImageMeta::build_from_datetime(4223371680), Err(RainError::DescriptorParse));
}

#[test]
fn equal_descriptors_have_equal_stamps() {
    let a = ImageMeta::build_from_str("202401011015").unwrap();
    let b = ImageMeta::build_from_datetime(TEN_FIFTEEN).unwrap();
    assert_eq!(a, b);
    assert_ne!(a, ImageMeta::build_from_datetime(TEN_FIFTEEN - 5).unwrap());
}

#[test]
fn window_aligns_down_and_steps_back() {
    // 2024-01-01 10:17:30
    let now = (TEN_FIFTEEN + 2) * 60 + 30;
    let w = resolve_window(now);
    assert_eq!(w.len(), WINDOW_LEN);
    assert_eq!(w.len(), 25);
    assert_eq!(w[0], TEN_FIFTEEN);
    for i in 1..w.len() {
        assert_eq!(w[i], w[i - 1] - 5);
    }
    assert_eq!(w[24], TEN_FIFTEEN - 120);
    assert_eq!(ImageMeta::build_from_datetime(w[24]).unwrap().image_name(), "202401010815");
}

#[test]
fn window_on_the_grid_keeps_the_instant() {
    let w = resolve_window(TEN_FIFTEEN * 60);
    assert_eq!(w[0], TEN_FIFTEEN);
    let w = resolve_window(TEN_FIFTEEN * 60 - 1);
    assert_eq!(w[0], TEN_FIFTEEN - 5);
}

#[test]
fn window_before_the_epoch() {
    // 1969-12-31 23:58:10
    let w = resolve_window(-110);
    assert_eq!(w[0], -5);
    assert!(w[0] * 60 <= -110);
}
