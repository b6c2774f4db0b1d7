//! Building the pyramid from an image description, loading canvases, the
//! download slot's staleness check, and the input drivers' decisions.

use tile_pyramid::app::app_state::DownloadState;
use tile_pyramid::iiif::image::{IiifFeature, IiifImageFormat, ImageInfo};
use tile_pyramid::iiif::image_v3::{IiifImageInfo, IiifImageInfoType, IiifTileInfo};
use tile_pyramid::iiif::manifest::{canvas_load_action, CanvasAction, ImageRef};
use tile_pyramid::iiif::IiifError;
use tile_pyramid::input::keyboard::{keyboard_pan_zoom, KeyboardPanZoom};
use tile_pyramid::input::mouse::{mouse_mode, wheel_zoom_delta, ZoomDebounce};
use tile_pyramid::input::touch::{TouchGesture, TouchHistory, TouchPoint};
use tile_pyramid::micro::MICRO_ONE;
use tile_pyramid::rendering::tiled_image::{Size, TiledImage};

fn tiled_info() -> IiifImageInfo {
    IiifImageInfo {
        type_: IiifImageInfoType::ImageService3,
        width: 2713,
        height: 1910,
        sizes: None,
        tiles: Some(vec![IiifTileInfo {
            width: 1024,
            height: Some(1024),
            scale_factors: vec![1, 2, 4],
        }]),
        profile: "level2".to_string(),
        extra_formats: None,
        extra_qualities: None,
        extra_features: None,
    }
}

#[test]
fn a_level2_service_is_tiled() {
    let expanded = tile_pyramid::iiif::image_v3::ImageInfo::try_from(tiled_info()).unwrap();
    let image = TiledImage::from_image_info(ImageInfo::Version3(expanded), "https://e/x").unwrap();

    assert_eq!(image.tile_size, Size::new(1024, 1024));
    // The scale factors 4, 2 and 1 give the levels, ascending by area.
    assert_eq!(
        image.levels,
        vec![Size::new(678, 477), Size::new(1356, 955), Size::new(2713, 1910)]
    );
    assert_eq!(image.image_format, IiifImageFormat::Jpg);
    assert!(image.supported_features.contains(&IiifFeature::RegionByPx));
    assert_eq!(image.iiif_endpoint, "https://e/x");
}

#[test]
fn a_level0_service_degrades_to_a_single_level() {
    let mut info = tiled_info();
    info.profile = "level0".to_string();
    let expanded = tile_pyramid::iiif::image_v3::ImageInfo::try_from(info).unwrap();
    let image = TiledImage::from_image_info(ImageInfo::Version3(expanded), "https://e/x").unwrap();

    // Without pixel regions and explicit sizing, one level equal to the full
    // size, fetched whole.
    assert_eq!(image.tile_size, Size::new(2713, 1910));
    assert_eq!(image.levels, vec![Size::new(2713, 1910)]);
}

#[test]
fn a_zero_scale_factor_is_a_format_error() {
    let mut info = tiled_info();
    info.tiles = Some(vec![IiifTileInfo {
        width: 1024,
        height: Some(1024),
        scale_factors: vec![1, 0],
    }]);
    let expanded = tile_pyramid::iiif::image_v3::ImageInfo::try_from(info).unwrap();
    match TiledImage::from_image_info(ImageInfo::Version3(expanded), "https://e/x") {
        Err(IiifError::IiifFormatError(_)) => {}
        _ => panic!("a zero scale factor must be rejected"),
    }
}

#[test]
fn a_missing_format_is_reported_with_the_endpoint() {
    let mut info = tiled_info();
    info.profile = "level1".to_string();
    let mut expanded = tile_pyramid::iiif::image_v3::ImageInfo::try_from(info).unwrap();
    expanded.expanded_profiles[0].formats = Vec::new();
    match TiledImage::from_image_info(ImageInfo::Version3(expanded), "https://e/x") {
        Err(IiifError::IiifMissingInfo(msg)) => {
            assert_eq!(msg, "missing image format in 'https://e/x'");
        }
        _ => panic!("a document without formats must be rejected"),
    }
}

#[test]
fn a_model_canvas_loads_the_model_and_an_image_fetches_its_service() {
    let model = ImageRef {
        type_: "Model".to_string(),
        id: "https://e/scene.glb".to_string(),
        service: String::new(),
    };
    assert_eq!(
        canvas_load_action(&model),
        CanvasAction::LoadModel("https://e/scene.glb".to_string())
    );

    let image = ImageRef {
        type_: "Image".to_string(),
        id: "https://e/img.jpg".to_string(),
        service: "https://e/iiif/img".to_string(),
    };
    assert_eq!(
        canvas_load_action(&image),
        CanvasAction::FetchImageInfo("https://e/iiif/img".to_string())
    );
}

#[test]
fn a_stale_download_completion_is_discarded() {
    let mut slot: DownloadState<u32> = DownloadState::Idle;
    slot.begin("https://e/one".to_string());
    slot.begin("https://e/two".to_string());

    // The completion of the superseded request changes nothing.
    let accepted = slot.complete("https://e/one".to_string(), Ok("{}".to_string()), 1);
    assert!(!accepted);
    assert_eq!(slot, DownloadState::InProgress { url: "https://e/two".to_string() });

    // The completion of the current request is taken.
    let accepted = slot.complete("https://e/two".to_string(), Ok("{}".to_string()), 2);
    assert!(accepted);
    assert_eq!(slot, DownloadState::Done { json: "{}".to_string(), info: 2 });

    slot.reset();
    assert_eq!(slot, DownloadState::Idle);

    // A failure becomes a reported error.
    slot.begin("https://e/three".to_string());
    let accepted = slot.complete(
        "https://e/three".to_string(),
        Err("connection refused".to_string()),
        3,
    );
    assert!(accepted);
    assert_eq!(
        slot,
        DownloadState::Error {
            url: "https://e/three".to_string(),
            msg: "connection refused".to_string()
        }
    );
}

#[test]
fn mouse_buttons_select_the_mode() {
    assert_eq!(mouse_mode(true, false), tile_pyramid::camera::main_camera::CameraMode::pan());
    assert_eq!(mouse_mode(false, true), tile_pyramid::camera::main_camera::CameraMode::orbit());
    assert_eq!(mouse_mode(false, false), tile_pyramid::camera::main_camera::CameraMode::zoom());
    assert_eq!(mouse_mode(true, true), tile_pyramid::camera::main_camera::CameraMode::zoom());
}

#[test]
fn wheel_steps_scale_by_a_tenth_each() {
    assert_eq!(wheel_zoom_delta(0), MICRO_ONE);
    assert_eq!(wheel_zoom_delta(1), 900_000);
    assert_eq!(wheel_zoom_delta(-2), 1_200_000);
}

#[test]
fn the_zoom_debounce_fires_once_after_a_quarter_second() {
    let mut debounce = ZoomDebounce::new();
    assert!(!debounce.poll(1_000_000));

    debounce.note_zoom(1_000_000);
    assert!(!debounce.poll(1_200_000));
    assert!(debounce.poll(1_300_000));
    assert!(!debounce.poll(1_400_000));
}

#[test]
fn keyboard_keys_map_to_pan_and_zoom() {
    assert_eq!(
        keyboard_pan_zoom(true, false, false, false, false, false),
        Some(KeyboardPanZoom { direction: (0, 5 * MICRO_ONE), scale: MICRO_ONE })
    );
    assert_eq!(
        keyboard_pan_zoom(false, false, false, false, true, false),
        Some(KeyboardPanZoom { direction: (0, 0), scale: 900_000 })
    );
    assert_eq!(keyboard_pan_zoom(false, false, false, false, false, false), None);
}

#[test]
fn a_second_distinct_contact_recaptures_the_snapshot() {
    let mut history = TouchHistory::new();
    let a = TouchPoint { id: 1, x: 10 * MICRO_ONE, y: 10 * MICRO_ONE };
    let b = TouchPoint { id: 2, x: 50 * MICRO_ONE, y: 10 * MICRO_ONE };

    assert!(history.observe_press(a));
    // The same contact pressed again does not restart the gesture.
    assert!(!history.observe_press(a));
    assert!(history.observe_press(b));
    // A third contact is ignored.
    assert!(!history.observe_press(TouchPoint { id: 3, x: 0, y: 0 }));

    // Two moved contacts make a pan-and-pinch from the initial snapshot.
    let moved = vec![
        TouchPoint { id: 1, x: 10 * MICRO_ONE, y: 10 * MICRO_ONE },
        TouchPoint { id: 2, x: 90 * MICRO_ONE, y: 10 * MICRO_ONE },
    ];
    match history.classify(&moved) {
        TouchGesture::PanZoom { centre, delta_zoom, delta_move } => {
            assert_eq!(centre, (50 * MICRO_ONE, 10 * MICRO_ONE));
            // The pinch widened from 40 to 80 pixels: the squared ratio
            // zooms in by a quarter.
            assert_eq!(delta_zoom, 250_000);
            assert_eq!(delta_move, (20 * MICRO_ONE, 0));
        }
        _ => panic!("two contacts must pan and zoom"),
    }

    // One remaining contact orbits from the tracked start.
    let one = vec![TouchPoint { id: 1, x: 15 * MICRO_ONE, y: 12 * MICRO_ONE }];
    match history.classify(&one) {
        TouchGesture::Orbit { pos, delta_move } => {
            assert_eq!(pos, (15 * MICRO_ONE, 12 * MICRO_ONE));
            assert_eq!(delta_move, (5 * MICRO_ONE, 2 * MICRO_ONE));
        }
        _ => panic!("one contact must orbit"),
    }

    history.reset();
    assert_eq!(history.classify(&one), TouchGesture::Idle);
}
