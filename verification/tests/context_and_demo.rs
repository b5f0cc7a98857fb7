use cl_picker::context::{context_properties_to_array, ContextProperties};
use cl_picker::demo::{buffer_byte_size, elementwise_add, result_byte_size};

#[test]
fn one_platform_property_flattens_to_value_then_terminator() {
    let props = vec![ContextProperties::ClContextPlatform(7)];
    assert_eq!(context_properties_to_array(&props), vec![7isize, 0]);
}

#[test]
fn empty_property_list_flattens_to_the_terminator_alone() {
    let props: Vec<ContextProperties> = Vec::new();
    assert_eq!(context_properties_to_array(&props), vec![0isize]);
}

#[test]
fn every_property_variant_contributes_its_payload() {
    let props = vec![
        ContextProperties::ClContextPlatform(3),
        ContextProperties::ClContextInteropUserSync(1),
        ContextProperties::ClGlContextKhr(-2),
        ContextProperties::ClEglDisplayKhr(11),
        ContextProperties::ClGlxDisplayKhr(12),
        ContextProperties::ClContextMemoryInitializeKhr(3),
        ContextProperties::ClContextTerminateKhr(0),
    ];
    assert_eq!(context_properties_to_array(&props), vec![3isize, 1, -2, 11, 12, 3, 0, 0]);
}

#[test]
fn demonstration_arrays_sum_elementwise() {
    let a = vec![1, 2, 3, 4, 5];
    let b = vec![10, 10, 10, 10, 10];
    assert_eq!(elementwise_add(&a, &b), vec![11, 12, 13, 14, 15]);
}

#[test]
fn buffer_sizes_for_the_demonstration() {
    assert_eq!(buffer_byte_size(5), 20);
    assert_eq!(result_byte_size(20, 20), 20);
    assert_eq!(result_byte_size(8, 20), 20);
    assert_eq!(result_byte_size(20, 8), 20);
}
