use accel::error::AccelError;
use accel::module::{str2cstring, Block, Dim3, Grid, Launch, Module};

#[test]
fn c_strings_end_in_zero() {
    assert_eq!(str2cstring("add"), vec![b'a', b'd', b'd', 0]);
    assert_eq!(str2cstring(""), vec![0]);
}

#[test]
fn load_reports_status() {
    assert_eq!(Module::load(301, 0).unwrap_err(), AccelError::Driver { code: 301 });
    assert_eq!(Module::load(0, 0x33).unwrap().get_ptr(), 0x33);
}

#[test]
fn get_function_and_launch() {
    let module = Module::load(0, 0x33).unwrap();
    assert_eq!(module.get_function(500, 0x44).unwrap_err(), AccelError::Driver { code: 500 });
    let mut f = module.get_function(0, 0x44).unwrap();
    let launch = f.launch(Grid(Dim3::x(4)), Block(Dim3::xy(8, 2)));
    assert_eq!(
        launch,
        Launch {
            func: 0x44,
            grid: Dim3 { x: 4, y: 1, z: 1 },
            block: Dim3 { x: 8, y: 2, z: 1 },
            shared_mem_bytes: 0,
            stream: 0,
        }
    );
}

#[test]
fn dim3_shapes() {
    assert_eq!(Dim3::x(5), Dim3 { x: 5, y: 1, z: 1 });
    assert_eq!(Dim3::xy(5, 6), Dim3 { x: 5, y: 6, z: 1 });
    assert_eq!(Dim3::xyz(5, 6, 7), Dim3 { x: 5, y: 6, z: 7 });
}
