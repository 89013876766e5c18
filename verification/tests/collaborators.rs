use gecko_bridge::b2glinuxhal::{
    b2glinuxhal_construct, B2gLinuxHal, FlashlightRequest, DEFAULT_FLASHLIGHT_PATH,
};
use gecko_bridge::errors::NsError;
use gecko_bridge::glcursor::{
    Corner, CursorPass, GLCursorRenderer, LazyInitializedGLCursorRenderer,
};
use gecko_bridge::ipfs_handler::{
    gateway_address, ipfs_construct, ipns_construct, IpfsHandler, Protocol, ProtocolFlag,
};
use gecko_bridge::prefs::{fallible_get_char_pref, get_char_pref, name_has_nul, PrefLookup};

#[test]
fn preference_lookup() {
    let value = || PrefLookup::Value("v".to_string());
    assert_eq!(fallible_get_char_pref("a", "d", PrefLookup::NoService), Ok("d".to_string()));
    assert_eq!(
        fallible_get_char_pref("a", "d", PrefLookup::NoBranch(NsError::InvalidArg)),
        Err(NsError::InvalidArg)
    );
    assert_eq!(fallible_get_char_pref("a", "d", PrefLookup::NoValue), Ok("d".to_string()));
    assert_eq!(fallible_get_char_pref("a", "d", value()), Ok("v".to_string()));
    assert_eq!(fallible_get_char_pref("a\0b", "d", value()), Err(NsError::Failure));
    assert_eq!(fallible_get_char_pref("a\0b", "d", PrefLookup::NoValue), Err(NsError::Failure));
    assert_eq!(fallible_get_char_pref("a\0b", "d", PrefLookup::NoService), Ok("d".to_string()));

    assert_eq!(get_char_pref("a", "d", value()), "v");
    assert_eq!(get_char_pref("a\0", "d", value()), "d");
    assert_eq!(get_char_pref("a", "d", PrefLookup::NoBranch(NsError::Failure)), "d");
    assert!(name_has_nul("\0"));
    assert!(!name_has_nul("hal.linux.flashlight.path"));
    assert!(!name_has_nul(""));
}

#[test]
fn flashlight_without_daemon_fails() {
    let hal = B2gLinuxHal::new(PrefLookup::NoService, false);
    assert_eq!(hal.flashlight_path(), DEFAULT_FLASHLIGHT_PATH);
    assert_eq!(hal.flashlight_path(), "/sys/class/leds/white:flash/");
    assert_eq!(hal.enable_flashlight(), Err(NsError::Failure));
    assert_eq!(hal.disable_flashlight(), Err(NsError::Failure));
    assert_eq!(hal.is_flashlight_supported(), Err(NsError::Failure));
    assert_eq!(hal.flashlight_state(), Err(NsError::Failure));
}

#[test]
fn flashlight_without_path_is_not_asked_for() {
    for connected in [true, false] {
        let hal = b2glinuxhal_construct(PrefLookup::Value(String::new()), connected);
        assert_eq!(hal.flashlight_path(), "");
        assert_eq!(hal.enable_flashlight(), Err(NsError::InvalidArg));
        assert_eq!(hal.disable_flashlight(), Err(NsError::InvalidArg));
        assert_eq!(hal.is_flashlight_supported(), Ok(None));
        assert_eq!(hal.flashlight_state(), Ok(None));
    }
}

#[test]
fn flashlight_requests_go_to_the_daemon() {
    let hal = B2gLinuxHal::new(PrefLookup::Value("/sys/class/leds/torch/".to_string()), true);
    assert_eq!(hal.flashlight_path(), "/sys/class/leds/torch/");
    assert_eq!(hal.enable_flashlight(), Ok(FlashlightRequest::Enable));
    assert_eq!(hal.disable_flashlight(), Ok(FlashlightRequest::Disable));
    assert_eq!(hal.is_flashlight_supported(), Ok(Some(FlashlightRequest::IsSupported)));
    assert_eq!(hal.flashlight_state(), Ok(Some(FlashlightRequest::State)));
}

#[test]
fn handler_constants() {
    let handler = ipfs_construct(PrefLookup::NoService);
    assert_eq!(handler.get_default_port(), -1);
    assert!(!handler.allow_port(80, "ipfs"));
    assert_eq!(handler.get_scheme(), "ipfs");
    assert_eq!(ipns_construct(PrefLookup::NoService).get_scheme(), "ipns");
    assert_eq!(Protocol::Ipfs.as_nscstring(), "ipfs");
    assert_eq!(Protocol::Ipns.as_nscstring(), "ipns");
    assert_eq!(
        handler.get_protocol_flags(),
        vec![
            ProtocolFlag::UriNoauth,
            ProtocolFlag::UriLoadableByAnyone,
            ProtocolFlag::UriIsPotentiallyTrustworthy,
            ProtocolFlag::UriFetchableByAnyone,
            ProtocolFlag::UriLoadableByExtensions,
        ]
    );
}

#[test]
fn gateway_address_layout() {
    assert_eq!(
        gateway_address("host", "ipfs", "dweb.link", "/a?b#c"),
        "https://host.ipfs.dweb.link/a?b#c"
    );
    assert_eq!(gateway_address("", "", "", ""), "https://..");
}

#[test]
fn ipfs_address_is_mapped_to_the_gateway() {
    let handler = IpfsHandler::new(Protocol::Ipfs, PrefLookup::NoService);
    assert_eq!(
        handler.new_channel(
            "bafybeiemxf5abjwjbikoz4mc3a3dla6ual3jsgpdr4cjr3oz3evfyavhwq",
            "/wiki/Vincent_van_Gogh.html"
        ),
        Ok("https://bafybeiemxf5abjwjbikoz4mc3a3dla6ual3jsgpdr4cjr3oz3evfyavhwq.ipfs.dweb.link/wiki/Vincent_van_Gogh.html".to_string())
    );
}

#[test]
fn ipfs_host_in_another_base_is_rewritten_to_base32() {
    // an identifier spelled in base 58
    let handler = IpfsHandler::new(Protocol::Ipfs, PrefLookup::Value("gw.example".to_string()));
    assert_eq!(
        handler.new_channel("zdj7WhuEjrB52m1BisYCtmjH1hSKa7yZ3jEZ9JcXaFRD51wVz", "/"),
        Ok("https://bafybeifzjut3te2nhyekklss27nh3k72ysco7y32koao5eei66wof36n5e.ipfs.gw.example/".to_string())
    );
}

#[test]
fn ipfs_host_that_is_no_identifier_fails() {
    let handler = IpfsHandler::new(Protocol::Ipfs, PrefLookup::NoService);
    assert_eq!(handler.new_channel("example.org", "/"), Err(NsError::Failure));
    assert_eq!(handler.new_channel("", "/"), Err(NsError::Failure));
    assert_eq!(handler.new_channel("b", "/"), Err(NsError::Failure));
}

#[test]
fn ipns_name_gets_dashes_for_dots() {
    let handler = IpfsHandler::new(Protocol::Ipns, PrefLookup::NoValue);
    assert_eq!(
        handler.new_channel("en.wikipedia-on-ipfs.org", "/wiki/"),
        Ok("https://en-wikipedia-on-ipfs-org.ipns.dweb.link/wiki/".to_string())
    );
    assert_eq!(
        handler.new_channel("..", ""),
        Ok("https://--.ipns.dweb.link".to_string())
    );
    assert_eq!(
        handler.new_channel("nodots", "/x"),
        Ok("https://nodots.ipns.dweb.link/x".to_string())
    );
}

#[test]
fn fresh_renderer_draws_nothing() {
    let renderer = GLCursorRenderer::new();
    assert!(renderer.corners().is_empty());
    assert!(renderer.indices().is_empty());
    assert!(renderer.buffer().is_empty());
    assert_eq!(renderer.render(Some((800, 600)), true), None);
    assert!(!renderer.deinit());
}

#[test]
fn set_glcursor_places_the_quad() {
    let mut renderer = GLCursorRenderer::new();
    let image = [1u8, 2, 3, 4, 5, 6, 7, 8];
    assert!(renderer.set_glcursor(true, 10, 20, 2, 1, Some(&image), 8));
    assert_eq!(
        renderer.corners(),
        &vec![
            Corner { x: 10, y: 20 },
            Corner { x: 12, y: 20 },
            Corner { x: 10, y: 21 },
            Corner { x: 12, y: 21 },
        ]
    );
    assert_eq!(renderer.indices(), &vec![0, 1, 2, 2, 1, 3]);
    assert_eq!(renderer.buffer(), &image.to_vec());
    // without a buffer the image stays
    assert!(!renderer.set_glcursor(true, -5, -6, 2, 1, None, 0));
    assert_eq!(renderer.buffer(), &image.to_vec());
    assert_eq!(renderer.corners()[3], Corner { x: -3, y: -5 });
    assert!(renderer.deinit());
}

#[test]
fn quad_does_not_overflow() {
    let mut renderer = GLCursorRenderer::new();
    renderer.set_glcursor(true, i32::MAX, i32::MIN, i32::MAX, i32::MIN, None, 0);
    assert_eq!(
        renderer.corners()[3],
        Corner { x: 2 * (i32::MAX as i64), y: 2 * (i32::MIN as i64) }
    );
}

#[test]
fn image_copy_is_bounded() {
    let mut renderer = GLCursorRenderer::new();
    let image = [1u8, 2, 3, 4];
    assert!(renderer.set_glcursor(true, 0, 0, 1, 1, Some(&image), 3));
    assert_eq!(renderer.buffer(), &vec![1, 2, 3]);
    // a buffer shorter than the size spoken of is passed over
    assert!(!renderer.set_glcursor(true, 0, 0, 1, 1, Some(&image), 5));
    assert_eq!(renderer.buffer(), &vec![1, 2, 3]);
    assert!(renderer.set_glcursor(true, 0, 0, 1, 1, Some(&image), 0));
    assert!(renderer.buffer().is_empty());
}

#[test]
fn render_pass() {
    let mut renderer = GLCursorRenderer::new();
    renderer.set_glcursor(true, 0, 0, 1, 1, Some(&[0, 0, 0, 0]), 4);
    assert_eq!(renderer.render(None, true), None);
    assert_eq!(
        renderer.render(Some((800, 600)), true),
        Some(CursorPass {
            width: 800,
            bottom: 0,
            top: 600,
            draw: true,
            bind_texture: true,
            index_count: 6
        })
    );
    assert_eq!(
        renderer.render(Some((800, 600)), false),
        Some(CursorPass {
            width: 800,
            bottom: 600,
            top: 0,
            draw: true,
            bind_texture: true,
            index_count: 6
        })
    );
    renderer.set_glcursor(false, 0, 0, 1, 1, None, 0);
    assert_eq!(renderer.render(Some((800, 600)), true), None);

    let mut bare = GLCursorRenderer::new();
    bare.set_glcursor(true, 0, 0, 1, 1, None, 0);
    assert_eq!(
        bare.render(Some((1, 2)), true),
        Some(CursorPass {
            width: 1,
            bottom: 0,
            top: 2,
            draw: true,
            bind_texture: false,
            index_count: 6
        })
    );
}

#[test]
fn lazy_renderer_is_made_when_the_cursor_is_shown() {
    let mut lazy = LazyInitializedGLCursorRenderer::new();
    assert!(lazy.needs_renderer());
    assert!(!lazy.is_enabled());
    assert!(lazy.try_get_mut().is_none());
    assert!(lazy.get_mut(true).is_none());
    assert!(lazy.needs_renderer());
    assert!(lazy.set_glcursor(true, true, 1, 2, 3, 4, Some(&[9]), 1));
    assert!(!lazy.needs_renderer());
    assert!(lazy.is_enabled());
    assert_eq!(lazy.try_get_mut().unwrap().buffer(), &vec![9]);
    assert_eq!(lazy.get_mut(false).unwrap().corners()[3], Corner { x: 4, y: 6 });
    // hiding keeps the renderer but withholds it from get_mut
    assert!(!lazy.set_glcursor(true, false, 1, 2, 3, 4, None, 0));
    assert!(lazy.get_mut(true).is_none());
    assert!(lazy.try_get_mut().is_some());
    assert_eq!(lazy.deinit(), Some(true));
}

#[test]
fn lazy_renderer_records_failure() {
    let mut lazy = LazyInitializedGLCursorRenderer::new();
    assert!(!lazy.create_render(false));
    assert!(lazy.needs_renderer());
    assert!(!lazy.set_glcursor(false, true, 0, 0, 1, 1, Some(&[1]), 1));
    assert!(lazy.try_get_mut().is_none());
    assert!(lazy.get_mut(true).is_none());
    // a later attempt with a ready device succeeds
    assert!(lazy.create_render(true));
    assert!(lazy.create_render(false));
    assert!(lazy.try_get_mut().is_some());
    assert_eq!(LazyInitializedGLCursorRenderer::new().deinit(), None);
}

#[test]
fn renderer_handed_out_can_be_changed() {
    let mut lazy = LazyInitializedGLCursorRenderer::new();
    lazy.set_glcursor(true, true, 0, 0, 1, 1, None, 0);
    lazy.get_mut(true).unwrap().set_glcursor(true, 5, 5, 1, 1, None, 0);
    assert_eq!(lazy.try_get_mut().unwrap().corners()[0], Corner { x: 5, y: 5 });
}
