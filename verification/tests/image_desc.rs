use rtdgi::image::div_up_dim;
use rtdgi::image::BufferDesc;
use rtdgi::image::Extent2;
use rtdgi::image::Extent3;
use rtdgi::image::ImageDesc;
use rtdgi::image::ImageType;
use rtdgi::image::FORMAT_R16G16B16A16_SFLOAT;
use rtdgi::image::IMAGE_USAGE_EMPTY;
use rtdgi::image::IMAGE_USAGE_SAMPLED;
use rtdgi::image::IMAGE_USAGE_SAMPLED_STORAGE;
use rtdgi::image::IMAGE_USAGE_STORAGE;
use rtdgi::image::TILING_OPTIMAL;

#[test]
fn new_2d_fills_every_field() {
    let d = ImageDesc::new_2d(FORMAT_R16G16B16A16_SFLOAT, Extent2 { width: 1920, height: 1080 });
    assert_eq!(
        d,
        ImageDesc {
            image_type: ImageType::Tex2d,
            usage: 0,
            flags: 0,
            format: 97,
            extent: Extent3 { width: 1920, height: 1080, depth: 1 },
            tiling: 0,
            mip_levels: 1,
            array_elements: 1,
        }
    );
    assert_eq!(TILING_OPTIMAL, 0);
    assert_eq!(IMAGE_USAGE_EMPTY, 0);
}

#[test]
fn usage_and_format_replace_one_field() {
    let d = ImageDesc::new_2d(37, Extent2 { width: 3, height: 5 });
    let u = d.usage(IMAGE_USAGE_SAMPLED_STORAGE);
    assert_eq!(u.usage, 12);
    assert_eq!(ImageDesc { usage: 0, ..u }, d);
    let f = u.format(FORMAT_R16G16B16A16_SFLOAT);
    assert_eq!(f.format, 97);
    assert_eq!(ImageDesc { format: 37, ..f }, u);
}

#[test]
fn sampled_storage_is_both_bits() {
    assert_eq!(IMAGE_USAGE_SAMPLED_STORAGE, IMAGE_USAGE_SAMPLED | IMAGE_USAGE_STORAGE);
}

#[test]
fn half_res_rounds_up() {
    let d = ImageDesc::new_2d(97, Extent2 { width: 1921, height: 1080 }).half_res();
    assert_eq!(d.extent, Extent3 { width: 961, height: 540, depth: 1 });
}

#[test]
fn half_res_never_goes_below_one() {
    let d = ImageDesc::new_2d(97, Extent2 { width: 0, height: 1 }).half_res();
    assert_eq!(d.extent, Extent3 { width: 1, height: 1, depth: 1 });
}

#[test]
fn half_res_of_the_largest_extent() {
    let d = ImageDesc::new_2d(97, Extent2 { width: u32::MAX, height: u32::MAX - 1 }).half_res();
    assert_eq!(d.extent, Extent3 { width: 2147483648, height: 2147483647, depth: 1 });
}

#[test]
fn half_res_keeps_the_other_fields() {
    let d = ImageDesc {
        image_type: ImageType::Tex3d,
        usage: 7,
        flags: 3,
        format: 44,
        extent: Extent3 { width: 10, height: 7, depth: 5 },
        tiling: 1,
        mip_levels: 4,
        array_elements: 6,
    };
    let h = d.half_res();
    assert_eq!(h.extent, Extent3 { width: 5, height: 4, depth: 3 });
    assert_eq!(ImageDesc { extent: d.extent, ..h }, d);
}

#[test]
fn div_up_extent_by_other_factors() {
    let d = ImageDesc::new_2d(97, Extent2 { width: 100, height: 10 });
    let q = d.div_up_extent(Extent3 { width: 3, height: 4, depth: 7 });
    assert_eq!(q.extent, Extent3 { width: 34, height: 3, depth: 1 });
}

#[test]
fn div_up_dim_exact_values() {
    assert_eq!(div_up_dim(0, 2), 1);
    assert_eq!(div_up_dim(1, 2), 1);
    assert_eq!(div_up_dim(2, 2), 1);
    assert_eq!(div_up_dim(3, 2), 2);
    assert_eq!(div_up_dim(9, 3), 3);
    assert_eq!(div_up_dim(10, 3), 4);
    assert_eq!(div_up_dim(u32::MAX, 1), u32::MAX);
    assert_eq!(div_up_dim(u32::MAX, u32::MAX), 1);
    assert_eq!(div_up_dim(5, u32::MAX), 1);
}

#[test]
fn extent_2d_drops_the_depth() {
    let e = Extent3 { width: 4, height: 9, depth: 2 };
    assert_eq!(e.extent_2d(), Extent2 { width: 4, height: 9 });
    let d = ImageDesc::new_2d(97, Extent2 { width: 6, height: 8 });
    assert_eq!(d.extent_2d(), Extent2 { width: 6, height: 8 });
}

#[test]
fn buffer_desc_takes_size_and_usage() {
    assert_eq!(BufferDesc::new(64, 0x20), BufferDesc { size: 64, usage: 0x20 });
}
