use erosion_terrain::surface::{first_srgb_index, get_surface_format};
use wgpu::TextureFormat;

#[test]
fn first_srgb_index_picks_first_srgb() {
    assert_eq!(first_srgb_index(&vec![false, true, true]), 1);
    assert_eq!(first_srgb_index(&vec![true, false]), 0);
}

#[test]
fn first_srgb_index_falls_back_to_first() {
    assert_eq!(first_srgb_index(&vec![false, false, false]), 0);
    assert_eq!(first_srgb_index(&vec![false]), 0);
}

#[test]
fn surface_format_prefers_srgb() {
    let formats = vec![
        TextureFormat::Bgra8Unorm,
        TextureFormat::Rgba16Float,
        TextureFormat::Bgra8UnormSrgb,
    ];
    assert_eq!(get_surface_format(&formats), TextureFormat::Bgra8UnormSrgb);
}

#[test]
fn surface_format_without_srgb_is_first() {
    let formats = vec![TextureFormat::Rgba16Float, TextureFormat::Bgra8Unorm];
    assert_eq!(get_surface_format(&formats), TextureFormat::Rgba16Float);
}
