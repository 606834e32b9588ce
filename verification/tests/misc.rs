use canvadot_notifications::error::GenericError;
use canvadot_notifications::types::TupleCords;

#[test]
fn generic_error_messages() {
    assert_eq!(
        GenericError::DynCastError.message(),
        "Couldn't cast the event target."
    );
    assert_eq!(
        GenericError::Undefined.message(),
        "Couldn't find the value in a JsObject."
    );
}

#[test]
fn tuple_coordinates() {
    let point: (i32, i32) = (3, -4);
    assert_eq!(point.x(), 3);
    assert_eq!(point.y(), -4);
}
