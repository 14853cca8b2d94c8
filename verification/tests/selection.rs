use halogen::is_device_feature_present;
use halogen::select_color_format;
use halogen::select_depth_stecil_format;
use halogen::select_physical_device;
use halogen::select_present_mode;
use halogen::types::Adapter;
use halogen::types::DeviceType;
use halogen::types::Feature;
use halogen::types::Format;
use halogen::types::PresentMode;

fn adapter(device_type: DeviceType, features: u32, handle: u64) -> Adapter {
    Adapter { handle, device_type, supported_feature_count: features }
}

#[test]
fn color_format_prefers_first_srgb_entry() {
    let formats = vec![Format::Bgra8Unorm, Format::Rgba8Srgb];
    assert_eq!(select_color_format(&formats, None), Format::Rgba8Srgb);
}

#[test]
fn color_format_falls_back_to_first_entry() {
    let formats = vec![Format::Bgra8Unorm];
    assert_eq!(select_color_format(&formats, None), Format::Bgra8Unorm);
}

#[test]
fn color_format_first_srgb_wins_among_several() {
    let formats = vec![Format::Bgra8Unorm, Format::Bgra8Srgb, Format::Rgba8Srgb];
    assert_eq!(select_color_format(&formats, None), Format::Bgra8Srgb);
}

#[test]
fn color_format_favored_wins_when_offered() {
    let formats = vec![Format::Bgra8Unorm, Format::Rgba8Srgb];
    assert_eq!(
        select_color_format(&formats, Some(Format::Bgra8Unorm)),
        Format::Bgra8Unorm
    );
}

#[test]
fn color_format_favored_ignored_when_absent() {
    let formats = vec![Format::Bgra8Unorm, Format::Rgba8Srgb];
    assert_eq!(
        select_color_format(&formats, Some(Format::Rgba8Unorm)),
        Format::Rgba8Srgb
    );
}

#[test]
fn color_format_empty_list_gives_default() {
    let formats: Vec<Format> = Vec::new();
    assert_eq!(select_color_format(&formats, None), Format::Rgba8Srgb);
}

#[test]
fn depth_stencil_picks_first_depth_stencil_entry() {
    let formats = vec![
        Format::Bgra8Unorm,
        Format::D16Unorm,
        Format::D24UnormS8Uint,
        Format::D32SfloatS8Uint,
    ];
    assert_eq!(
        select_depth_stecil_format(&formats, None),
        Some(Format::D24UnormS8Uint)
    );
}

#[test]
fn depth_stencil_favored_wins_when_offered() {
    let formats = vec![Format::D24UnormS8Uint, Format::D32SfloatS8Uint];
    assert_eq!(
        select_depth_stecil_format(&formats, Some(Format::D32SfloatS8Uint)),
        Some(Format::D32SfloatS8Uint)
    );
}

#[test]
fn depth_stencil_favored_must_carry_both_aspects() {
    let formats = vec![Format::D16Unorm, Format::D24UnormS8Uint];
    assert_eq!(
        select_depth_stecil_format(&formats, Some(Format::D16Unorm)),
        Some(Format::D24UnormS8Uint)
    );
}

#[test]
fn depth_stencil_none_without_candidates() {
    let formats = vec![Format::Bgra8Unorm, Format::Rgba8Srgb];
    assert_eq!(select_depth_stecil_format(&formats, None), None);
}

#[test]
fn present_mode_favored_wins_when_offered() {
    let modes = vec![PresentMode::Fifo, PresentMode::Mailbox];
    assert_eq!(
        select_present_mode(&modes, Some(PresentMode::Mailbox)),
        PresentMode::Mailbox
    );
}

#[test]
fn present_mode_falls_back_to_fifo() {
    let modes = vec![PresentMode::Immediate, PresentMode::Fifo];
    assert_eq!(
        select_present_mode(&modes, Some(PresentMode::Mailbox)),
        PresentMode::Fifo
    );
}

#[test]
fn present_mode_first_entry_without_fifo() {
    let modes = vec![PresentMode::Immediate, PresentMode::FifoRelaxed];
    assert_eq!(select_present_mode(&modes, None), PresentMode::Immediate);
}

#[test]
fn present_mode_empty_list_gives_fifo() {
    let modes: Vec<PresentMode> = Vec::new();
    assert_eq!(select_present_mode(&modes, None), PresentMode::Fifo);
}

#[test]
fn adapter_selection_prefers_discrete() {
    let adapters = vec![
        adapter(DeviceType::IntegratedGpu, 10, 1),
        adapter(DeviceType::DiscreteGpu, 0, 2),
    ];
    assert_eq!(select_physical_device(&adapters), Some(1));
}

#[test]
fn adapter_selection_without_discrete_takes_integrated() {
    let adapters = vec![
        adapter(DeviceType::Cpu, 10, 1),
        adapter(DeviceType::IntegratedGpu, 0, 2),
        adapter(DeviceType::Other, 3, 3),
    ];
    assert_eq!(select_physical_device(&adapters), Some(1));
}

#[test]
fn adapter_selection_breaks_type_ties_by_features() {
    let adapters = vec![
        adapter(DeviceType::DiscreteGpu, 2, 1),
        adapter(DeviceType::DiscreteGpu, 5, 2),
    ];
    assert_eq!(select_physical_device(&adapters), Some(1));
}

#[test]
fn adapter_selection_first_of_equals_wins() {
    let adapters = vec![
        adapter(DeviceType::DiscreteGpu, 5, 1),
        adapter(DeviceType::DiscreteGpu, 5, 2),
    ];
    assert_eq!(select_physical_device(&adapters), Some(0));
}

#[test]
fn adapter_selection_none_without_adapters() {
    let adapters: Vec<Adapter> = Vec::new();
    assert_eq!(select_physical_device(&adapters), None);
}

#[test]
fn device_feature_lookup() {
    let enabled = vec![Feature::SamplerAnisotropy, Feature::GeometryShader];
    assert!(is_device_feature_present(&enabled, Feature::GeometryShader));
    assert!(!is_device_feature_present(&enabled, Feature::WideLines));
}
