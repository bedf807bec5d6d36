use zkimg::util::{crop_image, generate_image};

#[test]
fn test_generate_image() {
    let width = 10;
    let height = 10;
    let image = generate_image(width, height);

    assert_eq!(image.len(), width * height * 3);
}

#[test]
fn test_crop_image() {
    let width = 10;
    let height = 10;
    let image = generate_image(width, height);

    let crop_x = 2;
    let crop_y = 2;
    let crop_width = 5;
    let crop_height = 5;
    let cropped_image = crop_image(&image, width, crop_x, crop_y, crop_width, crop_height);

    assert_eq!(cropped_image.len(), crop_width * crop_height * 3);

    for y in 0..crop_height {
        for x in 0..crop_width {
            for rgb in 0..3 {
                let old_x = crop_x + x;
                let old_y = crop_y + y;

                let old_index = (old_y * width + old_x) * 3;
                let new_index = (y * crop_width + x) * 3;

                let old_pixel = &image[old_index + rgb];
                let new_pixel = &cropped_image[new_index + rgb];

                assert_eq!(old_pixel, new_pixel);
            }
        }
    }
}

#[test]
fn generated_image_channels_are_bytes() {
    let image = generate_image(7, 3);
    assert_eq!(image.len(), 63);
    assert!(image.iter().all(|v| *v <= 255));
}

#[test]
fn empty_image_has_no_channels() {
    assert!(generate_image(0, 5).is_empty());
}

#[test]
fn crop_picks_exact_pixels() {
    // a 4x3 image whose channel values are their own positions
    let image: Vec<u64> = (0..36).collect();
    let cropped = crop_image(&image, 4, 1, 1, 2, 2);
    assert_eq!(cropped, vec![15, 16, 17, 18, 19, 20, 27, 28, 29, 30, 31, 32]);
}

#[test]
fn crop_of_zero_width_is_empty() {
    let image: Vec<u64> = (0..36).collect();
    assert!(crop_image(&image, 4, 3, 2, 0, 5).is_empty());
    assert!(crop_image(&image, 4, 3, 2, 5, 0).is_empty());
}

#[test]
fn crop_of_whole_image_is_the_image() {
    let image: Vec<u64> = (0..36).collect();
    assert_eq!(crop_image(&image, 4, 0, 0, 4, 3), image);
}
