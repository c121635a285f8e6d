use twilight_wgpu_backend::output::error::{Error, UploadError};
use twilight_wgpu_backend::output::gpu::BufferRole;
use twilight_wgpu_backend::output::object::{
    upload, ClassHandle, InstanceHandle, Object, ObjectClass, ObjectShader,
};
use twilight_wgpu_backend::output::Output;

const FORMAT: wgpu::TextureFormat = wgpu::TextureFormat::Rgba8UnormSrgb;

fn device() -> wgpu::Device {
    wgpu::Device::noop(&wgpu::DeviceDescriptor::default()).0
}

/// A class of the uniform kind with four vertices.
fn quad(device: &wgpu::Device, shape_id: usize) -> ObjectClass {
    let vertexes: Vec<u32> = [-0.5f32, -0.5, 0.5, -0.5, 0.5, 0.5, -0.5, 0.5]
        .iter()
        .map(|value| value.to_bits())
        .collect();
    ObjectClass::new(device, shape_id, ObjectShader::Uniform, &vertexes).unwrap()
}

fn object(device: &wgpu::Device, indices: &[u32]) -> Object {
    Object::new(device, &indices.to_vec()).unwrap()
}

#[test]
fn a_new_registry_has_no_classes() {
    let device = device();
    let output = Output::new(&device, FORMAT);
    assert_eq!(output.len(), 0);
    assert_eq!(output.format(), FORMAT);
    assert!(output.class(ClassHandle { id: 0 }).is_none());
}

#[test]
fn classes_get_handles_in_the_order_they_are_added() {
    let device = device();
    let mut output = Output::new(&device, FORMAT);
    let a = output.add_class(quad(&device, 10)).unwrap();
    let b = output.add_class(quad(&device, 20)).unwrap();
    assert_eq!(a, ClassHandle { id: 0 });
    assert_eq!(b, ClassHandle { id: 1 });
    assert_eq!(output.len(), 2);
    assert_eq!(output.position(a), Some(0));
    assert_eq!(output.position(b), Some(1));
    assert_eq!(output.class_at(0).shape_id(), 10);
    assert_eq!(output.class(b).unwrap().shape_id(), 20);
    assert_eq!(output.class(b).unwrap().shader(), ObjectShader::Uniform);
    assert_eq!(output.class(b).unwrap().vertex_count(), 4);
}

#[test]
fn instances_get_handles_in_the_order_they_are_added() {
    let device = device();
    let mut output = Output::new(&device, FORMAT);
    let a = output.add_class(quad(&device, 1)).unwrap();
    let first = output.add_instance(a, object(&device, &[0, 1, 2])).unwrap();
    let second = output.add_instance(a, object(&device, &[2, 3, 0])).unwrap();
    assert_eq!(first, InstanceHandle { class: a, id: 0 });
    assert_eq!(second, InstanceHandle { class: a, id: 1 });
    let class = output.class(a).unwrap();
    assert_eq!(class.len(), 2);
    assert_eq!(class.position(1), Some(1));
    assert_eq!(class.object(1).index_count(), 3);
    assert_eq!(class.object(1).vertex_span(), 4);
    assert!(class.has_indices());
    assert!(!class.is_full());
}

#[test]
fn removing_a_class_that_has_instances_is_refused_and_changes_nothing() {
    let device = device();
    let mut output = Output::new(&device, FORMAT);
    let a = output.add_class(quad(&device, 1)).unwrap();
    let b = output.add_class(quad(&device, 2)).unwrap();
    let instance = output.add_instance(a, object(&device, &[0, 1, 2])).unwrap();
    let before = output.commands();

    assert_eq!(output.remove_class(a).err(), Some(Error::ClassNotEmpty));
    assert_eq!(output.len(), 2);
    assert_eq!(output.position(a), Some(0));
    assert_eq!(output.position(b), Some(1));
    assert_eq!(output.class(a).unwrap().len(), 1);
    assert_eq!(output.commands(), before);

    // Once its instance is gone the class can go.
    let removed = output.remove_instance(instance).unwrap();
    assert_eq!(removed.index_count(), 3);
    let class = output.remove_class(a).unwrap();
    assert_eq!(class.shape_id(), 1);
    assert_eq!(output.len(), 1);
    assert_eq!(output.position(b), Some(0));
}

#[test]
fn a_handle_of_a_removed_class_names_nothing() {
    let device = device();
    let mut output = Output::new(&device, FORMAT);
    let a = output.add_class(quad(&device, 1)).unwrap();
    let b = output.add_class(quad(&device, 2)).unwrap();
    output.remove_class(a).unwrap();

    assert_eq!(output.position(a), None);
    assert_eq!(output.remove_class(a).err(), Some(Error::UnknownClass));
    assert_eq!(
        output.add_instance(a, object(&device, &[0, 1, 2])).err(),
        Some(Error::UnknownClass)
    );
    assert_eq!(
        output.remove_instance(InstanceHandle { class: a, id: 0 }).err(),
        Some(Error::UnknownClass)
    );
    // The class that is left keeps its handle, and a new class gets a new one.
    assert_eq!(output.class(b).unwrap().shape_id(), 2);
    let c = output.add_class(quad(&device, 3)).unwrap();
    assert_eq!(c, ClassHandle { id: 2 });
}

#[test]
fn a_handle_of_a_removed_instance_names_nothing() {
    let device = device();
    let mut output = Output::new(&device, FORMAT);
    let a = output.add_class(quad(&device, 1)).unwrap();
    let first = output.add_instance(a, object(&device, &[0, 1, 2])).unwrap();
    let second = output.add_instance(a, object(&device, &[0, 1, 2, 2, 3, 0])).unwrap();
    output.remove_instance(first).unwrap();

    assert_eq!(output.remove_instance(first).err(), Some(Error::UnknownInstance));
    assert_eq!(output.class(a).unwrap().len(), 1);
    // The other instance keeps its handle, and a new one gets a new handle.
    let third = output.add_instance(a, object(&device, &[1, 2, 3])).unwrap();
    assert_eq!(third, InstanceHandle { class: a, id: 2 });
    assert_eq!(output.remove_instance(second).unwrap().index_count(), 6);
    assert_eq!(output.class(a).unwrap().object(0).index_count(), 3);
}

#[test]
fn an_index_beyond_the_vertices_of_the_class_is_refused() {
    let device = device();
    let mut output = Output::new(&device, FORMAT);
    let a = output.add_class(quad(&device, 1)).unwrap();
    assert_eq!(
        output.add_instance(a, object(&device, &[0, 1, 4])).err(),
        Some(Error::IndexOutOfBounds)
    );
    assert_eq!(output.class(a).unwrap().len(), 0);
    // The last vertex can be addressed.
    assert!(output.add_instance(a, object(&device, &[0, 1, 3])).is_ok());
}

#[test]
fn vertex_data_that_is_not_whole_vertices_is_refused() {
    let device = device();
    let made = ObjectClass::new(&device, 1, ObjectShader::Uniform, &vec![0, 0, 0]);
    assert!(matches!(made, Err(UploadError::Ragged)));
    // Six words are three vertices of the uniform kind and one of the vertex
    // kind, but not a whole number of the texture kind.
    let words = vec![0u32; 6];
    assert_eq!(
        ObjectClass::new(&device, 1, ObjectShader::Uniform, &words).unwrap().vertex_count(),
        3
    );
    assert_eq!(
        ObjectClass::new(&device, 1, ObjectShader::Vertex, &words).unwrap().vertex_count(),
        1
    );
    assert_eq!(
        ObjectClass::new(&device, 1, ObjectShader::BlurBehind, &words).unwrap().vertex_count(),
        3
    );
    assert!(matches!(
        ObjectClass::new(&device, 1, ObjectShader::Texture, &words),
        Err(UploadError::Ragged)
    ));
}

#[test]
fn a_buffer_the_device_refuses_is_reported() {
    let limits = wgpu::Limits { max_buffer_size: 64, ..wgpu::Limits::default() };
    let (device, _queue) = wgpu::Device::noop(&wgpu::DeviceDescriptor {
        required_limits: limits,
        ..wgpu::DeviceDescriptor::default()
    });
    let indices = vec![0u32; 17];
    match Object::new(&device, &indices) {
        Err(UploadError::Rejected { message }) => assert!(!message.is_empty()),
        other => panic!("expected a rejection, got {:?}", other.map(|_| ())),
    }
    let vertexes = vec![0u32; 18];
    assert!(matches!(
        ObjectClass::new(&device, 1, ObjectShader::Uniform, &vertexes),
        Err(UploadError::Rejected { .. })
    ));
    // Sixteen words are sixty-four bytes, which the device takes.
    assert!(Object::new(&device, &vec![0u32; 16]).is_ok());
}

#[test]
fn buffers_have_the_size_of_their_data() {
    let device = device();
    let made = object(&device, &[0, 1, 2, 2, 3, 0]);
    assert_eq!(made.indexes().size(), 24);
    assert_eq!(made.indexes().usage(), wgpu::BufferUsages::INDEX);
    let class = quad(&device, 1);
    assert_eq!(class.vertexes().size(), 32);
    assert_eq!(class.vertexes().usage(), wgpu::BufferUsages::VERTEX);
    assert_eq!(object(&device, &[]).indexes().size(), 0);
}

#[test]
fn words_are_uploaded_for_the_use_they_are_meant_for() {
    let device = device();
    let words = vec![1u32, 2, 3, 4, 5];
    let vertex = upload(&device, &words, BufferRole::Vertex).unwrap();
    assert_eq!((vertex.size(), vertex.usage()), (20, wgpu::BufferUsages::VERTEX));
    let index = upload(&device, &words, BufferRole::Index).unwrap();
    assert_eq!((index.size(), index.usage()), (20, wgpu::BufferUsages::INDEX));
    let uniform = upload(&device, &words, BufferRole::Uniform).unwrap();
    assert_eq!((uniform.size(), uniform.usage()), (20, wgpu::BufferUsages::UNIFORM));
    assert_eq!(upload(&device, &vec![], BufferRole::Vertex).unwrap().size(), 0);
}
