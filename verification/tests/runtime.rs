use warqueen::runtime::{runtime_flavor, RuntimeFlavor};

#[test]
fn runtime_for_thread_counts() {
    assert_eq!(runtime_flavor(None), RuntimeFlavor::CurrentThread);
    assert_eq!(runtime_flavor(Some(1)), RuntimeFlavor::CurrentThread);
    assert_eq!(runtime_flavor(Some(2)), RuntimeFlavor::MultiThread { worker_threads: 2 });
    assert_eq!(runtime_flavor(Some(8)), RuntimeFlavor::MultiThread { worker_threads: 8 });
}
