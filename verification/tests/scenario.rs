use lgbm::dataset::{CreateFromMat, GetField, SetField};
use lgbm::{Dataset, Field, Float32, MatShape};

/// Plays the native layer: keeps what the calls hand over and answers as the
/// library would.
struct Native {
    handle: usize,
    nrow: i32,
    ncol: i32,
    label: Vec<f32>,
    label_type: i32,
}

const LABEL_ADDR: usize = 0x7f00_2000;

fn create(native: &mut Native, call: &CreateFromMat) -> (i32, String, usize) {
    native.nrow = call.nrow;
    native.ncol = call.ncol;
    (0, String::from("Everything is fine"), native.handle)
}

fn set_label(native: &mut Native, call: &SetField, data: &[f32]) -> (i32, String) {
    if call.handle != native.handle || call.name != b"label\0" {
        return (-1, String::from("Unknown dataset or field"));
    }
    if call.num_element != native.nrow {
        return (-1, String::from("Length of labels differs from the length of #data"));
    }
    native.label = data[..call.num_element as usize].to_vec();
    native.label_type = call.data_type;
    (0, String::from("Everything is fine"))
}

fn get_label(native: &Native, call: &GetField<Float32>) -> (i32, String, i32, usize, i32) {
    if call.handle != native.handle || call.name != b"label\0" {
        return (-1, String::from("Unknown dataset or field"), 0, 0, 0);
    }
    (
        0,
        String::from("Everything is fine"),
        native.label.len() as i32,
        LABEL_ADDR,
        native.label_type,
    )
}

#[test]
fn label_round_trip_on_a_four_by_two_matrix() {
    let mut native = Native { handle: 0x7f00_1000, nrow: 0, ncol: 0, label: Vec::new(), label_type: -1 };
    let features: [f32; 8] = [1.0, 0.5, 2.0, 0.25, 3.0, 0.125, 4.0, 0.0625];
    let labels: [f32; 4] = [0.0, 1.0, 0.0, 1.0];

    let mat = MatShape::<Float32>::new(features.len() / 2, 2, true);
    let call = Dataset::from_mat(&mat, None, b"").unwrap();
    assert_eq!((call.data_type, call.nrow, call.ncol, call.is_row_major), (0, 4, 2, 1));
    assert_eq!(call.reference, 0);
    let (status, message, handle) = create(&mut native, &call);
    let mut dataset = call.finish(status, message, handle).unwrap();

    let call = dataset.set_field(Field::<Float32>::label(), labels.len()).unwrap();
    let (status, message) = set_label(&mut native, &call, &labels);
    assert_eq!(call.finish(status, message), Ok(()));

    let call = dataset.get_field(Field::<Float32>::label());
    let (status, message, out_len, out_ptr, out_type) = get_label(&native, &call);
    let view = call.finish(status, message, out_len, out_ptr, out_type).unwrap();
    assert_eq!(view.addr, LABEL_ADDR);
    assert_eq!(view.len, 4);
    assert_eq!(&native.label[..view.len], &labels);
    assert_eq!(&native.label[..view.len], &[0.0, 1.0, 0.0, 1.0]);

    let nrow = native.nrow;
    assert_eq!(dataset.get_num_data().finish(0, String::new(), nrow), Ok(4));
    let ncol = native.ncol;
    assert_eq!(dataset.get_num_feature().finish(0, String::new(), ncol), Ok(2));

    let call = dataset.free();
    assert_eq!(call.handle, native.handle);
    assert_eq!(call.finish(0, String::new()), Ok(()));
}

#[test]
fn validation_data_is_aligned_with_its_reference() {
    let train = Dataset::from_mat(&MatShape::<Float32>::new(128, 1, true), None, b"")
        .unwrap()
        .finish(0, String::new(), 0x7f00_1000)
        .unwrap();
    let call = Dataset::from_mat(&MatShape::<Float32>::new(64, 1, true), Some(&train), b"").unwrap();
    assert_eq!(call.reference, 0x7f00_1000);
    let valid = call.finish(0, String::new(), 0x7f00_3000).unwrap();
    assert_eq!(valid.get_num_data().handle, 0x7f00_3000);
    assert_eq!(train.get_num_data().handle, 0x7f00_1000);
}

#[test]
fn what_was_set_as_one_type_is_not_read_as_another() {
    let mut dataset = Dataset::from_mat(&MatShape::<Float32>::new(4, 2, true), None, b"")
        .unwrap()
        .finish(0, String::new(), 0x1000)
        .unwrap();
    let set = dataset.set_field(Field::<Float32>::label(), 4).unwrap();
    let sent_type = set.data_type;
    let sent_len = set.num_element;
    assert_eq!(set.finish(0, String::new()), Ok(()));

    let same = dataset.get_field(Field::<Float32>::new(b"label\0"));
    assert_eq!(same.finish(0, String::new(), sent_len, 64, sent_type).unwrap().len, 4);
    let other = dataset.get_field(Field::<i32>::new(b"label\0"));
    assert_eq!(
        other.finish(0, String::new(), sent_len, 64, sent_type),
        Err(lgbm::Error::TypeMismatch)
    );
}
