//! What the Vulkan setup holds: the loaded entry, the instance, the debug
//! messenger and its settings, the chosen device and its properties, the
//! queues asked for, the logical device and the names enabled on them. The
//! driver calls that produce these values are made by the program around the
//! library, which hands each result to a step of the setup; the choices
//! between them are made here.
use vstd::prelude::*;

use ash::vk;

use crate::vk_api::{debug_all_message_type_bits, debug_error_severity_bits, packed_api_version};
use crate::vk_setup::{
    gpu_device_auto, gpu_device_custom, graphics_queue_plan, last_presenting, name_enabled,
    queue_requests_upto, DebugCallback, DefaultNameAddresses, QueueRequest,
    DEFAULT_VK_API_VERSION_MAJOR, DEFAULT_VK_API_VERSION_MINOR,
};

verus! {

/// `ash::Entry`, the loaded Vulkan library.
#[verifier::external_type_specification]
#[verifier::external_body]
pub struct ExEntry(ash::Entry);

/// `ash::Instance`, a Vulkan instance with its functions.
#[verifier::external_type_specification]
#[verifier::external_body]
pub struct ExInstance(ash::Instance);

/// `ash::Device`, a logical device with its functions.
#[verifier::external_type_specification]
#[verifier::external_body]
pub struct ExDevice(ash::Device);

/// `ash::extensions::khr::Surface`, the surface extension's functions.
#[verifier::external_type_specification]
#[verifier::external_body]
pub struct ExSurface(ash::extensions::khr::Surface);

/// `ash::extensions::khr::Win32Surface`, the window system's surface functions.
#[verifier::external_type_specification]
#[verifier::external_body]
pub struct ExWin32Surface(ash::extensions::khr::Win32Surface);

/// `ash::extensions::ext::DebugUtils`, the debug extension's functions.
#[verifier::external_type_specification]
#[verifier::external_body]
pub struct ExDebugUtils(ash::extensions::ext::DebugUtils);

/// `ash::vk::DebugUtilsMessengerEXT`, the handle of a debug messenger.
#[verifier::external_type_specification]
#[verifier::external_body]
pub struct ExDebugUtilsMessenger(vk::DebugUtilsMessengerEXT);

/// `ash::vk::PhysicalDevice`, the handle of a physical device.
#[verifier::external_type_specification]
#[verifier::external_body]
pub struct ExPhysicalDevice(vk::PhysicalDevice);

/// `ash::vk::PhysicalDeviceProperties`.
#[verifier::external_type_specification]
#[verifier::external_body]
pub struct ExPhysicalDeviceProperties(vk::PhysicalDeviceProperties);

/// `ash::vk::PhysicalDeviceFeatures`.
#[verifier::external_type_specification]
#[verifier::external_body]
pub struct ExPhysicalDeviceFeatures(vk::PhysicalDeviceFeatures);

/// `ash::vk::PhysicalDeviceMemoryProperties`.
#[verifier::external_type_specification]
#[verifier::external_body]
pub struct ExPhysicalDeviceMemoryProperties(vk::PhysicalDeviceMemoryProperties);

/// `ash::vk::QueueFamilyProperties`.
#[verifier::external_type_specification]
#[verifier::external_body]
pub struct ExQueueFamilyProperties(vk::QueueFamilyProperties);

/// Calls `<ash::Device as Clone>::clone`, which ash derives: the copy holds
/// the same device handle and the same function tables, so it equals the
/// device it was taken from.
#[verifier::external_body]
fn device_clone(d: &ash::Device) -> (c: ash::Device)
    ensures
        c == *d,
{
    d.clone()
}

/// The queue families of the chosen device, each also by the raw bits of its
/// queue flags, in the same order.
struct QueueFamilies {
    properties: Vec<vk::QueueFamilyProperties>,
    flags: Vec<u32>,
}

/// The queue families of the chosen device and the raw bits of their queue
/// flags.
pub struct QueueFamiliesView {
    pub properties: Seq<vk::QueueFamilyProperties>,
    pub flags: Seq<u32>,
}

/// The Vulkan setup. Names are held by their addresses; the count of each
/// list handed to Vulkan is its length.
pub struct AshVkBaseD {
    id: u64,
    base_feature: String,
    lock: bool,
    gpu_id: u64,
    app_name: usize,
    api_version: u32,
    ash_entry: Option<ash::Entry>,
    ash_instance: Option<ash::Instance>,
    ash_device: Option<ash::Device>,
    ash_debug_utils: Option<ash::extensions::ext::DebugUtils>,
    ash_surface_loader: Option<ash::extensions::khr::Surface>,
    ash_os_drive_loader: Option<ash::extensions::khr::Win32Surface>,
    vk_instance_extension_names: Vec<usize>,
    vk_instance_layer_names: Vec<usize>,
    debug_severity: u32,
    debug_message_types: u32,
    debug_callback: DebugCallback,
    vk_debug_msger: Option<vk::DebugUtilsMessengerEXT>,
    vk_gpu_device: Option<vk::PhysicalDevice>,
    vk_gpu_properties: Option<vk::PhysicalDeviceProperties>,
    vk_gpu_feature: Option<vk::PhysicalDeviceFeatures>,
    vk_gpu_mem_properties: Option<vk::PhysicalDeviceMemoryProperties>,
    vk_gpu_queue_families: Option<QueueFamilies>,
    vk_logical_device_quque_create_info: Option<Vec<QueueRequest>>,
    vk_logical_device_ext_names: Vec<usize>,
}

/// What a setup holds, with its lists as sequences.
pub struct AshVkBaseView {
    pub id: u64,
    pub base_feature: Seq<char>,
    pub lock: bool,
    /// The device number used when a device is chosen by number.
    pub gpu_id: u64,
    /// The address of the application's name, handed to Vulkan as the
    /// application's and the engine's name (0 for none).
    pub app_name: usize,
    pub api_version: u32,
    pub ash_entry: Option<ash::Entry>,
    pub ash_instance: Option<ash::Instance>,
    pub ash_device: Option<ash::Device>,
    pub ash_debug_utils: Option<ash::extensions::ext::DebugUtils>,
    pub ash_surface_loader: Option<ash::extensions::khr::Surface>,
    pub ash_os_drive_loader: Option<ash::extensions::khr::Win32Surface>,
    pub instance_extension_names: Seq<usize>,
    pub instance_layer_names: Seq<usize>,
    /// The raw severity bits the debug messenger reports.
    pub debug_severity: u32,
    /// The raw message-type bits the debug messenger reports.
    pub debug_message_types: u32,
    pub debug_callback: DebugCallback,
    pub debug_messenger: Option<vk::DebugUtilsMessengerEXT>,
    pub gpu_device: Option<vk::PhysicalDevice>,
    pub gpu_properties: Option<vk::PhysicalDeviceProperties>,
    pub gpu_feature: Option<vk::PhysicalDeviceFeatures>,
    pub gpu_mem_properties: Option<vk::PhysicalDeviceMemoryProperties>,
    pub gpu_queue_families: Option<QueueFamiliesView>,
    /// The queues the logical device was created with.
    pub queue_requests: Option<Seq<QueueRequest>>,
    pub device_ext_names: Seq<usize>,
}

impl AshVkBaseView {
    /// The number of instance extensions handed to Vulkan.
    pub open spec fn enabled_extension_count(self) -> u32 {
        self.instance_extension_names.len() as u32
    }

    /// The number of instance layers handed to Vulkan.
    pub open spec fn enabled_layer_count(self) -> u32 {
        self.instance_layer_names.len() as u32
    }

    /// The number of device extensions handed to Vulkan.
    pub open spec fn device_extension_count(self) -> u32 {
        self.device_ext_names.len() as u32
    }

    /// The number of queue requests the logical device was created with; 0
    /// before it is created.
    pub open spec fn queue_create_info_count(self) -> u32 {
        match self.queue_requests {
            Some(q) => q.len() as u32,
            None => 0,
        }
    }
}

impl View for AshVkBaseD {
    type V = AshVkBaseView;

    closed spec fn view(&self) -> AshVkBaseView {
        AshVkBaseView {
            id: self.id,
            base_feature: self.base_feature@,
            lock: self.lock,
            gpu_id: self.gpu_id,
            app_name: self.app_name,
            api_version: self.api_version,
            ash_entry: self.ash_entry,
            ash_instance: self.ash_instance,
            ash_device: self.ash_device,
            ash_debug_utils: self.ash_debug_utils,
            ash_surface_loader: self.ash_surface_loader,
            ash_os_drive_loader: self.ash_os_drive_loader,
            instance_extension_names: self.vk_instance_extension_names@,
            instance_layer_names: self.vk_instance_layer_names@,
            debug_severity: self.debug_severity,
            debug_message_types: self.debug_message_types,
            debug_callback: self.debug_callback,
            debug_messenger: self.vk_debug_msger,
            gpu_device: self.vk_gpu_device,
            gpu_properties: self.vk_gpu_properties,
            gpu_feature: self.vk_gpu_feature,
            gpu_mem_properties: self.vk_gpu_mem_properties,
            gpu_queue_families: match self.vk_gpu_queue_families {
                Some(f) => Some(QueueFamiliesView { properties: f.properties@, flags: f.flags@ }),
                None => None,
            },
            queue_requests: match self.vk_logical_device_quque_create_info {
                Some(q) => Some(q@),
                None => None,
            },
            device_ext_names: self.vk_logical_device_ext_names@,
        }
    }
}

/// A fresh setup holding `entry`: base feature "AshVkBase", unlocked, device
/// number 0, no application name, API version 1.3, no names enabled, the
/// debug messenger set to report errors of every message type to the log
/// system, and nothing created or read yet.
pub open spec fn fresh_setup(entry: Option<ash::Entry>) -> AshVkBaseView {
    AshVkBaseView {
        id: 0,
        base_feature: "AshVkBase"@,
        lock: false,
        gpu_id: 0,
        app_name: 0,
        api_version: packed_api_version(0, 1, 3, 0),
        ash_entry: entry,
        ash_instance: None,
        ash_device: None,
        ash_debug_utils: None,
        ash_surface_loader: None,
        ash_os_drive_loader: None,
        instance_extension_names: Seq::empty(),
        instance_layer_names: Seq::empty(),
        debug_severity: 0x1000,
        debug_message_types: 7,
        debug_callback: DebugCallback::ToLogSystem,
        debug_messenger: None,
        gpu_device: None,
        gpu_properties: None,
        gpu_feature: None,
        gpu_mem_properties: None,
        gpu_queue_families: None,
        queue_requests: None,
        device_ext_names: Seq::empty(),
    }
}

impl AshVkBaseD {
    /// A fresh setup holding the loaded library `entry` (none where it is not
    /// loaded).
    pub fn build(entry: Option<ash::Entry>) -> (b: Self)
        ensures
            b@ == fresh_setup(entry),
    {
        proof {
            reveal_strlit("AshVkBase");
        }
        let api_version = crate::vk_api::make_api_version(
            0,
            DEFAULT_VK_API_VERSION_MAJOR,
            DEFAULT_VK_API_VERSION_MINOR,
            0,
        );
        let b = AshVkBaseD {
            id: 0,
            base_feature: String::from_str("AshVkBase"),
            lock: false,
            gpu_id: 0,
            app_name: 0,
            api_version,
            ash_entry: entry,
            ash_instance: None,
            ash_device: None,
            ash_debug_utils: None,
            ash_surface_loader: None,
            ash_os_drive_loader: None,
            vk_instance_extension_names: Vec::new(),
            vk_instance_layer_names: Vec::new(),
            debug_severity: debug_error_severity_bits(),
            debug_message_types: debug_all_message_type_bits(),
            debug_callback: DebugCallback::ToLogSystem,
            vk_debug_msger: None,
            vk_gpu_device: None,
            vk_gpu_properties: None,
            vk_gpu_feature: None,
            vk_gpu_mem_properties: None,
            vk_gpu_queue_families: None,
            vk_logical_device_quque_create_info: None,
            vk_logical_device_ext_names: Vec::new(),
        };
        assert(b@ =~= fresh_setup(entry));
        b
    }

    /// The setup taking device number `gpu_id` when a device is chosen by number.
    pub fn build_specify_config(self, gpu_id: u64) -> (b: Self)
        ensures
            b@ == (AshVkBaseView { gpu_id, ..self@ }),
    {
        let mut b = self;
        b.gpu_id = gpu_id;
        b
    }

    /// The setup as it is (base features are not configurable yet).
    pub fn build_base_feature(self, feature_name: String) -> (b: Self)
        ensures
            b@ == self@,
    {
        self
    }

    /// The setup handing the name at address `name_in` to Vulkan as the
    /// application's and the engine's name.
    pub fn build_appname(self, name_in: usize) -> (b: Self)
        ensures
            b@ == (AshVkBaseView { app_name: name_in, ..self@ }),
    {
        let mut b = self;
        b.app_name = name_in;
        b
    }

    /// The setup as it is (the application version is not handed to Vulkan yet).
    pub fn build_appversion(self) -> (b: Self)
        ensures
            b@ == self@,
    {
        self
    }

    /// The setup asking for API version `vers_in`.
    pub fn build_apiversion(self, vers_in: u32) -> (b: Self)
        ensures
            b@ == (AshVkBaseView { api_version: vers_in, ..self@ }),
    {
        let mut b = self;
        b.api_version = vers_in;
        b
    }

    /// The setup with the instance extension at address `pin` enabled too.
    pub fn build_add_p_instance_ext_name(self, pin: usize) -> (b: Self)
        ensures
            b@ == (AshVkBaseView {
                instance_extension_names: self@.instance_extension_names.push(pin),
                ..self@
            }),
    {
        let mut b = self;
        b.vk_instance_extension_names.push(pin);
        b
    }

    /// The setup with the instance layer at address `pin` enabled too.
    pub fn build_add_p_instance_layer_name(self, pin: usize) -> (b: Self)
        ensures
            b@ == (AshVkBaseView { instance_layer_names: self@.instance_layer_names.push(pin), ..self@ }),
    {
        let mut b = self;
        b.vk_instance_layer_names.push(pin);
        b
    }

    /// The editor's default choices on the setup: the validation layer; the
    /// Win32 surface, surface and debug utilities extensions, in that order;
    /// the swapchain extension on the device; validation messages printed on
    /// the console.
    pub fn build_editor_defaults(self, names: &DefaultNameAddresses) -> (b: Self)
        ensures
            b@ == (AshVkBaseView {
                instance_layer_names: self@.instance_layer_names.push(names.validation_layer),
                instance_extension_names: self@.instance_extension_names.push(names.win32_surface).push(
                    names.surface,
                ).push(names.debug_utils),
                device_ext_names: self@.device_ext_names.push(names.swapchain),
                debug_callback: DebugCallback::ToConsole,
                ..self@
            }),
    {
        self.build_add_p_instance_layer_name(names.validation_layer)
            .build_add_p_instance_ext_name(names.win32_surface)
            .build_add_p_instance_ext_name(names.surface)
            .build_add_p_instance_ext_name(names.debug_utils)
            .build_choose_debug_call_back(DebugCallback::ToConsole)
            .build_add_p_device_ext_name_checked(names.swapchain)
    }

    /// The setup holding the created `instance`.
    pub fn build_instance_checked(self, instance: ash::Instance) -> (b: Self)
        ensures
            b@ == (AshVkBaseView { ash_instance: Some(instance), ..self@ }),
    {
        let mut b = self;
        b.ash_instance = Some(instance);
        b
    }

    /// The setup holding the debug extension's functions `debug_utils` and
    /// the debug `messenger` created with its settings.
    pub fn build_debug_util_checked(
        self,
        debug_utils: ash::extensions::ext::DebugUtils,
        messenger: vk::DebugUtilsMessengerEXT,
    ) -> (b: Self)
        ensures
            b@ == (AshVkBaseView {
                ash_debug_utils: Some(debug_utils),
                debug_messenger: Some(messenger),
                ..self@
            }),
    {
        let mut b = self;
        b.ash_debug_utils = Some(debug_utils);
        b.vk_debug_msger = Some(messenger);
        b
    }

    /// The setup sending validation messages to `call_specify`.
    pub fn build_choose_debug_call_back(self, call_specify: DebugCallback) -> (b: Self)
        ensures
            b@ == (AshVkBaseView { debug_callback: call_specify, ..self@ }),
    {
        let mut b = self;
        b.debug_callback = call_specify;
        b
    }

    /// The setup holding the window system's surface functions, which let the
    /// device be chosen by the window system.
    pub fn build_os_drive_loader(self, loader: ash::extensions::khr::Win32Surface) -> (b: Self)
        ensures
            b@ == (AshVkBaseView { ash_os_drive_loader: Some(loader), ..self@ }),
    {
        let mut b = self;
        b.ash_os_drive_loader = Some(loader);
        b
    }

    /// The setup holding the properties of the chosen device.
    pub fn build_gpu_properties(self, properties: vk::PhysicalDeviceProperties) -> (b: Self)
        ensures
            b@ == (AshVkBaseView { gpu_properties: Some(properties), ..self@ }),
    {
        let mut b = self;
        b.vk_gpu_properties = Some(properties);
        b
    }

    /// The setup holding the features of the chosen device.
    pub fn build_gpu_feature(self, features: vk::PhysicalDeviceFeatures) -> (b: Self)
        ensures
            b@ == (AshVkBaseView { gpu_feature: Some(features), ..self@ }),
    {
        let mut b = self;
        b.vk_gpu_feature = Some(features);
        b
    }

    /// The setup holding the memory properties of the chosen device.
    pub fn build_mem_properties(self, properties: vk::PhysicalDeviceMemoryProperties) -> (b: Self)
        ensures
            b@ == (AshVkBaseView { gpu_mem_properties: Some(properties), ..self@ }),
    {
        let mut b = self;
        b.vk_gpu_mem_properties = Some(properties);
        b
    }

    /// The setup with the device numbered by the configuration chosen, when
    /// `devices` has one with that number; otherwise the setup as it is.
    pub fn build_gpu_device_custom(self, devices: &Vec<vk::PhysicalDevice>) -> (b: Self)
        ensures
            self@.gpu_id < devices@.len() ==> b@ == (AshVkBaseView {
                gpu_device: Some(devices@[self@.gpu_id as int]),
                ..self@
            }),
            self@.gpu_id >= devices@.len() ==> b@ == self@,
    {
        let mut b = self;
        match gpu_device_custom(b.gpu_id, devices.len()) {
            Some(i) => {
                b.vk_gpu_device = Some(devices[i]);
            },
            None => {},
        }
        b
    }

    /// The setup with the device chosen by the window system: `support[i][j]`
    /// tells whether family `j` of `devices[i]` can present to a window; the
    /// last device with such a family is chosen. When there is none, or when
    /// the window system's surface functions are not held, the setup stays as
    /// it is.
    pub fn build_gpu_device_auto(self, devices: &Vec<vk::PhysicalDevice>, support: &Vec<Vec<bool>>) -> (b: Self)
        requires
            support@.len() == devices@.len(),
        ensures
            self@.ash_os_drive_loader is Some && last_presenting(support.deep_view(), support@.len()) is Some
                ==> b@ == (AshVkBaseView {
                gpu_device: Some(
                    devices@[last_presenting(support.deep_view(), support@.len()).unwrap() as int],
                ),
                ..self@
            }),
            !(self@.ash_os_drive_loader is Some && last_presenting(support.deep_view(), support@.len())
                is Some) ==> b@ == self@,
    {
        proof {
            lemma_last_presenting_in_range(support.deep_view(), support@.len());
        }
        let mut b = self;
        let ready = b.ash_os_drive_loader.is_some();
        match gpu_device_auto(support, None, ready) {
            Some(i) => {
                b.vk_gpu_device = Some(devices[i]);
            },
            None => {},
        }
        b
    }

    /// The setup holding the queue families of the chosen device, `families`,
    /// with `flags`, the raw bits of each family's queue flags; the setup as
    /// it is when no device has been chosen.
    pub fn build_get_queue_family_from_gpu(self, families: Vec<vk::QueueFamilyProperties>, flags: Vec<u32>) -> (b: Self)
        requires
            flags@.len() == families@.len(),
        ensures
            self@.gpu_device is Some ==> b@ == (AshVkBaseView {
                gpu_queue_families: Some(QueueFamiliesView { properties: families@, flags: flags@ }),
                ..self@
            }),
            self@.gpu_device is None ==> b@ == self@,
    {
        let mut b = self;
        if b.vk_gpu_device.is_some() {
            b.vk_gpu_queue_families = Some(QueueFamilies { properties: families, flags });
        }
        b
    }

    /// The setup with the device extension at address `pin` enabled too
    /// (every extension is taken; none is checked against the device).
    pub fn build_add_p_device_ext_name_checked(self, pin: usize) -> (b: Self)
        ensures
            b@ == (AshVkBaseView { device_ext_names: self@.device_ext_names.push(pin), ..self@ }),
    {
        let mut b = self;
        b.vk_logical_device_ext_names.push(pin);
        b
    }

    /// The setup holding the logical `device` and the queues it was created
    /// with: for each queue family that supports graphics, in order, one
    /// request (see `graphics_queue_plan`). The setup as it is when the queue
    /// families have not been read.
    pub fn build_vk_device_checked(self, device: ash::Device) -> (b: Self)
        ensures
            self@.gpu_queue_families matches Some(f) ==> b@ == (AshVkBaseView {
                queue_requests: Some(queue_requests_upto(f.flags, f.flags.len())),
                ash_device: Some(device),
                ..self@
            }),
            self@.gpu_queue_families matches Some(f) ==> b@.queue_create_info_count()
                == queue_requests_upto(f.flags, f.flags.len()).len() as u32,
            self@.gpu_queue_families is None ==> b@ == self@,
    {
        let mut b = self;
        match &b.vk_gpu_queue_families {
            Some(f) => {
                let plan = graphics_queue_plan(&f.flags);
                b.vk_logical_device_quque_create_info = Some(plan);
                b.ash_device = Some(device);
            },
            None => {},
        }
        b
    }

    /// The queues the logical device is to be created with, from the queue
    /// families read; an error when they have not been read.
    pub fn gpu_queue_plan(&self) -> (r: Result<Vec<QueueRequest>, ()>)
        ensures
            match self@.gpu_queue_families {
                Some(f) => r matches Ok(p) && p@ == queue_requests_upto(f.flags, f.flags.len()),
                None => r is Err,
            },
    {
        match &self.vk_gpu_queue_families {
            Some(f) => Ok(graphics_queue_plan(&f.flags)),
            None => Err(()),
        }
    }

    /// The setup holding the surface extension's functions.
    pub fn build_surface_loader_checked(self, loader: ash::extensions::khr::Surface) -> (b: Self)
        ensures
            b@ == (AshVkBaseView { ash_surface_loader: Some(loader), ..self@ }),
    {
        let mut b = self;
        b.ash_surface_loader = Some(loader);
        b
    }

    /// The setup as it is.
    pub fn check_push_out(self) -> (b: Self)
        ensures
            b@ == self@,
    {
        self
    }

    /// The properties of the chosen device; an error when they were not read.
    pub fn gpu_properties_clone(&self) -> (r: Result<vk::PhysicalDeviceProperties, ()>)
        ensures
            match self@.gpu_properties {
                Some(p) => r == Ok::<vk::PhysicalDeviceProperties, ()>(p),
                None => r is Err,
            },
    {
        match self.vk_gpu_properties {
            Some(val) => Ok(val),
            None => Err(()),
        }
    }

    /// The loaded library; an error when it is not there.
    pub fn ash_entry_ref(&self) -> (r: Result<&ash::Entry, ()>)
        ensures
            match self@.ash_entry {
                Some(e) => r matches Ok(x) && *x == e,
                None => r is Err,
            },
    {
        match &self.ash_entry {
            Some(i) => Ok(i),
            None => Err(()),
        }
    }

    /// The instance; an error when it has not been created.
    pub fn ash_instance_ref(&self) -> (r: Result<&ash::Instance, ()>)
        ensures
            match self@.ash_instance {
                Some(e) => r matches Ok(x) && *x == e,
                None => r is Err,
            },
    {
        match &self.ash_instance {
            Some(i) => Ok(i),
            None => Err(()),
        }
    }

    /// A copy of the logical device; an error when it has not been created.
    pub fn ash_device_clone(&self) -> (r: Result<ash::Device, ()>)
        ensures
            match self@.ash_device {
                Some(d) => r == Ok::<ash::Device, ()>(d),
                None => r is Err,
            },
    {
        match &self.ash_device {
            Some(d) => Ok(device_clone(d)),
            None => Err(()),
        }
    }

    /// The chosen device; an error when none has been chosen.
    pub fn gpu_instance_ref(&self) -> (r: Result<&vk::PhysicalDevice, ()>)
        ensures
            match self@.gpu_device {
                Some(e) => r matches Ok(x) && *x == e,
                None => r is Err,
            },
    {
        match &self.vk_gpu_device {
            Some(i) => Ok(i),
            None => Err(()),
        }
    }

    /// The queue families of the chosen device; an error when they were not read.
    pub fn gueue_info_ref(&self) -> (r: Result<&Vec<vk::QueueFamilyProperties>, ()>)
        ensures
            match self@.gpu_queue_families {
                Some(f) => r matches Ok(x) && x@ == f.properties,
                None => r is Err,
            },
    {
        match &self.vk_gpu_queue_families {
            Some(f) => Ok(&f.properties),
            None => Err(()),
        }
    }

    /// The number of queue requests the logical device was created with.
    pub fn gpu_suitable_queue_count_currrent(&self) -> (n: u32)
        ensures
            n == self@.queue_create_info_count(),
    {
        match &self.vk_logical_device_quque_create_info {
            Some(q) => q.len() as u32,
            None => 0,
        }
    }

    /// The surface extension's functions; an error when they were not loaded.
    pub fn surface_loader_ref(&self) -> (r: Result<&ash::extensions::khr::Surface, ()>)
        ensures
            match self@.ash_surface_loader {
                Some(e) => r matches Ok(x) && *x == e,
                None => r is Err,
            },
    {
        match &self.ash_surface_loader {
            Some(s) => Ok(s),
            None => Err(()),
        }
    }

    /// The features of the chosen device; an error when they were not read.
    pub fn gpu_feature_ref(&self) -> (r: Result<&vk::PhysicalDeviceFeatures, ()>)
        ensures
            match self@.gpu_feature {
                Some(e) => r matches Ok(x) && *x == e,
                None => r is Err,
            },
    {
        match &self.vk_gpu_feature {
            Some(s) => Ok(s),
            None => Err(()),
        }
    }

    /// The memory properties of the chosen device; an error when they were not read.
    pub fn gpu_mem_properties_current_ref(&self) -> (r: Result<&vk::PhysicalDeviceMemoryProperties, ()>)
        ensures
            match self@.gpu_mem_properties {
                Some(e) => r matches Ok(x) && *x == e,
                None => r is Err,
            },
    {
        match &self.vk_gpu_mem_properties {
            Some(s) => Ok(s),
            None => Err(()),
        }
    }

    /// Whether the instance extension at address `name_ptr` is enabled.
    pub fn check_ext_name_exist(&self, name_ptr: usize) -> (found: bool)
        ensures
            found == self@.instance_extension_names.contains(name_ptr),
    {
        name_enabled(&self.vk_instance_extension_names, name_ptr)
    }

    /// The API version asked for.
    pub fn api_version(&self) -> (v: u32)
        ensures
            v == self@.api_version,
    {
        self.api_version
    }

    /// The address of the application's name (0 for none).
    pub fn app_name(&self) -> (a: usize)
        ensures
            a == self@.app_name,
    {
        self.app_name
    }

    /// The instance extensions enabled, by address.
    pub fn instance_extension_names(&self) -> (v: &Vec<usize>)
        ensures
            v@ == self@.instance_extension_names,
    {
        &self.vk_instance_extension_names
    }

    /// The instance layers enabled, by address.
    pub fn instance_layer_names(&self) -> (v: &Vec<usize>)
        ensures
            v@ == self@.instance_layer_names,
    {
        &self.vk_instance_layer_names
    }

    /// The device extensions enabled, by address.
    pub fn device_ext_names(&self) -> (v: &Vec<usize>)
        ensures
            v@ == self@.device_ext_names,
    {
        &self.vk_logical_device_ext_names
    }

    /// The number of instance extensions handed to Vulkan.
    pub fn enabled_extension_count(&self) -> (n: u32)
        ensures
            n == self@.enabled_extension_count(),
    {
        self.vk_instance_extension_names.len() as u32
    }

    /// The number of instance layers handed to Vulkan.
    pub fn enabled_layer_count(&self) -> (n: u32)
        ensures
            n == self@.enabled_layer_count(),
    {
        self.vk_instance_layer_names.len() as u32
    }

    /// The number of device extensions handed to Vulkan.
    pub fn device_extension_count(&self) -> (n: u32)
        ensures
            n == self@.device_extension_count(),
    {
        self.vk_logical_device_ext_names.len() as u32
    }

    /// The raw severity bits the debug messenger reports.
    pub fn debug_severity_bits(&self) -> (bits: u32)
        ensures
            bits == self@.debug_severity,
    {
        self.debug_severity
    }

    /// The raw message-type bits the debug messenger reports.
    pub fn debug_message_type_bits(&self) -> (bits: u32)
        ensures
            bits == self@.debug_message_types,
    {
        self.debug_message_types
    }

    /// Where validation messages go.
    pub fn debug_callback(&self) -> (c: DebugCallback)
        ensures
            c == self@.debug_callback,
    {
        self.debug_callback
    }
}

proof fn lemma_last_presenting_in_range(support: Seq<Seq<bool>>, k: nat)
    ensures
        last_presenting(support, k) matches Some(i) ==> i < k,
    decreases k,
{
    if k > 0 {
        lemma_last_presenting_in_range(support, (k - 1) as nat);
    }
}

} // verus!
