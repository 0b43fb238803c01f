use dse::application::{ApplicationAttachment, ApplicationD, GraphicAPIType, CONFIG_PATH};
use dse::model::{ModelD, ModelE, ModelTask, NodeD, TransformUpdate};
use dse::shader::{PipelineShaderStage, ShaderModuleD, ShaderTextD, SHADER_ENTRY_NAME, SHADER_ENTRY_NAME_NUL};
use dse::toml_decoder::TomlDecoderE;
use ash::vk::{self, Handle};
use dse::vk_base::AshVkBaseD;
use dse::vk_setup::{
    debug_severity, format_debug_message, gpu_device_auto, gpu_device_custom, graphics_queue_plan,
    DebugCallback, DebugSeverity, DefaultNameAddresses, QueueRequest, EXT_DEBUG_UTILS, KHR_SURFACE,
    KHR_SWAPCHAIN, KHR_VALIDATION, KHR_WIN32_SURFACE,
};
use dse::window::{window_message_action, WinWinodwE, WindowFrame, WindowMessageAction};

const CONFIG: &str = "title = 1\n### BEGIN app\nasset_path = \"a\"\nresource_path = \"r\"\n### END app\nother = 2\n";

#[test]
fn block_is_read_between_markers() {
    let d = TomlDecoderE::build()
        .build_raw(CONFIG.to_string())
        .build_specify_block("app".to_string());
    assert_eq!(d.into_block(), "asset_path = \"a\"\nresource_path = \"r\"\n");
}

#[test]
fn unnamed_block_matches_any_marker() {
    let d = TomlDecoderE::default().build_raw(CONFIG.to_string());
    assert_eq!(d.into_block(), "asset_path = \"a\"\nresource_path = \"r\"\n");
}

#[test]
fn missing_block_gives_back_the_text() {
    let d = TomlDecoderE::build()
        .build_raw(CONFIG.to_string())
        .build_specify_block("render".to_string());
    assert_eq!(d.into_block(), CONFIG);
}

#[test]
fn empty_block_gives_back_the_text() {
    let raw = "### BEGIN app\n### END app\n";
    let d = TomlDecoderE::build().build_raw(raw.to_string()).build_specify_block("app".to_string());
    assert_eq!(d.into_block(), raw);
}

#[test]
fn block_lines_drop_carriage_returns() {
    let raw = "### BEGIN app\r\nx = 1\r\ny = 2\r\n### END app\r\n";
    let d = TomlDecoderE::build().build_raw(raw.to_string()).build_specify_block("app".to_string());
    assert_eq!(d.into_block(), "x = 1\ny = 2\n");
}

#[test]
fn block_without_end_runs_to_the_end() {
    let raw = "a\n### BEGIN app\nx = 1\ny = 2";
    let d = TomlDecoderE::build().build_raw(raw.to_string()).build_specify_block("app".to_string());
    assert_eq!(d.into_block(), "x = 1\ny = 2\n");
}

#[test]
fn final_line_ending_is_optional() {
    let with = "### BEGIN app\nx = 1";
    let without = "### BEGIN app\nx = 1\n";
    let a = TomlDecoderE::build().build_raw(with.to_string()).build_specify_block("app".to_string());
    let b = TomlDecoderE::build().build_raw(without.to_string()).build_specify_block("app".to_string());
    assert_eq!(a.into_block(), b.into_block());
}

#[test]
fn two_blocks_of_one_name_are_joined() {
    let raw = "### BEGIN app\nx = 1\n### END app\nz = 0\n### BEGIN app\ny = 2\n### END app\n";
    let d = TomlDecoderE::build().build_raw(raw.to_string()).build_specify_block("app".to_string());
    assert_eq!(d.into_block(), "x = 1\ny = 2\n");
}

#[test]
fn tables_of_one_name_are_collected() {
    let raw = "[[mesh]]\na = 1\n[[mesh]]\nb = 2\n[[tex]]\nc = 3\n";
    let d = TomlDecoderE::build().build_raw(raw.to_string()).build_specify_table("mesh".to_string());
    assert_eq!(d.into_table(), vec!["\na = 1".to_string(), "\nb = 2".to_string(), String::new()]);
}

#[test]
fn tables_are_read_inside_the_block() {
    let raw = "[[mesh]]\nout = 0\n### BEGIN scene\n[[mesh]]\nin = 1\n### END scene\n";
    let d = TomlDecoderE::build()
        .build_raw(raw.to_string())
        .build_specify_block("scene".to_string())
        .build_specify_table("mesh".to_string());
    assert_eq!(d.into_table(), vec!["\nin = 1".to_string()]);
}

#[test]
fn text_without_titles_has_one_empty_table() {
    let d = TomlDecoderE::build().build_raw("a = 1\nb = 2\n".to_string());
    assert_eq!(d.into_table(), vec![String::new()]);
}

#[test]
fn titles_with_equals_or_hash_are_not_titles() {
    let raw = "[[mesh]]\nx = [[1]]\n# [[mesh]]\ny = 2\n";
    let d = TomlDecoderE::build().build_raw(raw.to_string()).build_specify_table("mesh".to_string());
    assert_eq!(d.into_table(), vec!["\nx = [[1]]\n# [[mesh]]\ny = 2".to_string()]);
}

fn model(index_self: u64, index_parent: u64) -> ModelD {
    let mut m = ModelD::build();
    *m.node_mut() = NodeD { index_self, index_parent };
    m
}

#[test]
fn transform_plan_follows_the_node_tree() {
    let mut models = vec![Some(model(0, u64::MAX)), Some(model(1, 0)), Some(model(2, 1))];
    let plan = ModelE::update_global_transform_sync(&mut models);
    assert_eq!(
        plan,
        vec![
            TransformUpdate { parent: 0, child: 1 },
            TransformUpdate { parent: 1, child: 2 },
            TransformUpdate { parent: 1, child: 2 },
        ]
    );
    let again = ModelE::update_global_transform_sync(&mut models);
    assert!(again.is_empty());
}

#[test]
fn subnodes_are_all_descendants() {
    let models = vec![
        Some(model(0, u64::MAX)),
        Some(model(1, 0)),
        Some(model(2, 1)),
        Some(model(3, u64::MAX)),
        Some(model(4, 2)),
    ];
    assert_eq!(ModelD::find_all_subnode_index(&models, 0), Ok(vec![1, 2, 4]));
    assert_eq!(ModelD::find_all_subnode_index(&models, 3), Ok(vec![]));
    assert_eq!(ModelD::find_all_subnode_index(&models, 5), Err(()));
}

#[test]
fn subnodes_stop_on_cycles() {
    let models = vec![Some(model(0, 1)), Some(model(1, 0))];
    assert_eq!(ModelD::find_all_subnode_index(&models, 0), Ok(vec![0, 1]));
}

#[test]
fn settled_models_plan_nothing() {
    let mut models = vec![Some(model(0, u64::MAX)), Some(model(1, 0))];
    let _ = ModelE::update_global_transform_sync(&mut models);
    assert_eq!(ModelE::update_global_transform_sync(&mut models), vec![]);
}

#[test]
fn model_executor_basics() {
    let mut e = ModelE::build();
    assert_eq!(e.id, 0);
    e.set_id(7);
    assert_eq!(e.id, 7);
    *e.id_mut() = 9;
    assert_eq!(e.id, 9);
    let mut queues: Vec<Option<Vec<ModelTask>>> = Vec::new();
    e.attachment.index_transform_task = 2;
    e.link_task_queue(&mut queues);
    assert_eq!(queues, vec![None, None, Some(vec![])]);
    assert_eq!(ModelTask::default(), ModelTask::NoTask);
}

#[test]
fn model_setters() {
    let mut m = ModelD::build().build_from_meta();
    m.set_mesh(3);
    m.set_transform(4);
    m.set_tex(5);
    assert_eq!(*m.node_ref(), NodeD { index_self: 0, index_parent: u64::MAX });
}

#[test]
fn application_builders() {
    let app = ApplicationD::build()
        .build_id(4)
        .build_appname(String::from("Dse Editor"))
        .build_graphic_api(GraphicAPIType::Vk)
        .build_graphic_api_version(1, 3)
        .build_custom_app_config_path();
    assert_eq!(app.get_app_name_clone(), "Dse Editor");
    assert_eq!(app.get_app_version(), 0);
    assert_eq!(app.get_graphic_api_version(), [0, 0]);
    assert_eq!(app.get_winhandle(), 0);
    assert_eq!(CONFIG_PATH, "asset\\config\\app\\config.toml");
}

#[test]
fn application_config_attaches_paths() {
    let attachment = ApplicationAttachment { asset_path: Some("assets".to_string()), resource_path: None };
    let app = ApplicationD::build().build_load_app_config(Some(attachment));
    assert_eq!(app.get_asset_path(), "assets");
}

#[test]
fn shader_text_refuses_empty_source() {
    let t = ShaderTextD::default().build_raw("void main() {}".to_string()).build_id(3).build_stage(0x10);
    let t = t.build_raw(String::new());
    assert_eq!(t.get_source(), "void main() {}");
    assert_eq!(t.get_id(), 3);
    assert_eq!(t.get_stage(), 0x10);
}

#[test]
fn shader_module_counts_bytes() {
    let m = ShaderModuleD::build().build_source(vec![1, 2, 3], 1);
    assert_eq!(m.code_size, 12);
    assert_eq!(m.stage, 1);
    assert_eq!(m.pipe_stage_info(), Err(()));
    let mut m = m;
    m.entity = Some(77);
    assert_eq!(m.pipe_stage_info(), Ok(PipelineShaderStage { stage: 1, module: 77 }));
}

#[test]
fn gpu_choices() {
    assert_eq!(gpu_device_custom(1, 2), Some(1));
    assert_eq!(gpu_device_custom(2, 2), None);
    let support = vec![vec![true], vec![false, false], vec![false, true], vec![]];
    assert_eq!(gpu_device_auto(&support, None, true), Some(2));
    assert_eq!(gpu_device_auto(&support, Some(0), false), Some(0));
    assert_eq!(gpu_device_auto(&vec![vec![false]], Some(5), true), Some(5));
}

#[test]
fn graphics_queues_are_requested() {
    let plan = graphics_queue_plan(&vec![0b110, 0b1, 0b11]);
    assert_eq!(
        plan,
        vec![
            QueueRequest { family_index: 1, queue_count: 3 },
            QueueRequest { family_index: 2, queue_count: 3 },
        ]
    );
}

fn bare_setup() -> AshVkBaseD {
    AshVkBaseD::build(None)
}

#[test]
fn fresh_setup_holds_the_defaults() {
    let b = bare_setup();
    assert_eq!(b.api_version(), vk::make_api_version(0, 1, 3, 0));
    assert_eq!(b.api_version(), 0x0040_3000);
    assert_eq!(b.app_name(), 0);
    assert_eq!(b.enabled_extension_count(), 0);
    assert_eq!(b.enabled_layer_count(), 0);
    assert_eq!(b.device_extension_count(), 0);
    assert_eq!(b.debug_severity_bits(), vk::DebugUtilsMessageSeverityFlagsEXT::ERROR.as_raw());
    assert_eq!(
        b.debug_message_type_bits(),
        (vk::DebugUtilsMessageTypeFlagsEXT::GENERAL
            | vk::DebugUtilsMessageTypeFlagsEXT::VALIDATION
            | vk::DebugUtilsMessageTypeFlagsEXT::PERFORMANCE)
            .as_raw()
    );
    assert_eq!(b.debug_callback(), DebugCallback::ToLogSystem);
    let b = b.build_choose_debug_call_back(DebugCallback::ToConsole).build_appname(42);
    assert_eq!(b.debug_callback(), DebugCallback::ToConsole);
    assert_eq!(b.app_name(), 42);
}

#[test]
fn enabled_names_are_counted_and_found() {
    let b = bare_setup()
        .build_add_p_instance_ext_name(100)
        .build_add_p_instance_ext_name(200)
        .build_add_p_instance_layer_name(300)
        .build_add_p_device_ext_name_checked(400);
    assert_eq!(b.enabled_extension_count(), 2);
    assert_eq!(b.enabled_layer_count(), 1);
    assert_eq!(b.device_extension_count(), 1);
    assert_eq!(b.instance_extension_names(), &vec![100, 200]);
    assert_eq!(b.instance_layer_names(), &vec![300]);
    assert_eq!(b.device_ext_names(), &vec![400]);
    assert!(b.check_ext_name_exist(200));
    assert!(!b.check_ext_name_exist(300));
    assert!(!bare_setup().check_ext_name_exist(100));
}

#[test]
fn setup_chooses_devices() {
    let devices: Vec<vk::PhysicalDevice> = (1..=3).map(vk::PhysicalDevice::from_raw).collect();
    let b = bare_setup().build_specify_config(1).build_gpu_device_custom(&devices);
    assert_eq!(b.gpu_instance_ref().map(|d| d.as_raw()), Ok(2));
    let b = bare_setup().build_specify_config(3).build_gpu_device_custom(&devices);
    assert!(b.gpu_instance_ref().is_err());
    // Without the window system's surface functions no device is chosen.
    let support = vec![vec![true], vec![false], vec![true, false]];
    let b0 = bare_setup().build_gpu_device_auto(&devices, &support);
    assert!(b0.gpu_instance_ref().is_err());
    let b = bare_setup().build_specify_config(2).build_gpu_device_custom(&devices);
    let b = b.build_get_queue_family_from_gpu(vec![vk::QueueFamilyProperties::default()], vec![0]);
    assert_eq!(b.gueue_info_ref().map(|f| f.len()), Ok(1));
    let b = bare_setup().build_get_queue_family_from_gpu(vec![vk::QueueFamilyProperties::default()], vec![0]);
    assert!(b.gueue_info_ref().is_err());
    assert!(b.gpu_queue_plan().is_err());
}

#[test]
fn queue_plan_follows_the_families_read() {
    let devices: Vec<vk::PhysicalDevice> = (1..=2).map(vk::PhysicalDevice::from_raw).collect();
    let families: Vec<vk::QueueFamilyProperties> = [0b110u32, 0b1, 0b11]
        .iter()
        .map(|f| vk::QueueFamilyProperties { queue_flags: vk::QueueFlags::from_raw(*f), ..Default::default() })
        .collect();
    let flags: Vec<u32> = families.iter().map(|f| f.queue_flags.as_raw()).collect();
    let b = bare_setup()
        .build_gpu_device_custom(&devices)
        .build_get_queue_family_from_gpu(families, flags);
    assert_eq!(
        b.gpu_queue_plan(),
        Ok(vec![
            QueueRequest { family_index: 1, queue_count: 3 },
            QueueRequest { family_index: 2, queue_count: 3 },
        ])
    );
    assert_eq!(b.gpu_suitable_queue_count_currrent(), 0);
}

#[test]
fn editor_defaults_enable_names_in_order() {
    let names = DefaultNameAddresses {
        validation_layer: 1,
        win32_surface: 2,
        surface: 3,
        debug_utils: 4,
        swapchain: 5,
    };
    let b = bare_setup().build_editor_defaults(&names);
    assert_eq!(b.instance_layer_names(), &vec![1]);
    assert_eq!(b.instance_extension_names(), &vec![2, 3, 4]);
    assert_eq!(b.device_ext_names(), &vec![5]);
    assert_eq!(b.enabled_layer_count(), 1);
    assert_eq!(b.enabled_extension_count(), 3);
    assert_eq!(b.device_extension_count(), 1);
    assert_eq!(b.debug_callback(), DebugCallback::ToConsole);
    assert_eq!(KHR_VALIDATION, "VK_LAYER_KHRONOS_validation\0");
    assert_eq!(KHR_SWAPCHAIN, "VK_KHR_swapchain\0");
    assert!(EXT_DEBUG_UTILS.ends_with('\0') && KHR_SURFACE.ends_with('\0') && KHR_WIN32_SURFACE.ends_with('\0'));
}

#[test]
fn shader_entry_name_ends_in_nul() {
    assert_eq!(SHADER_ENTRY_NAME_NUL.as_bytes(), b"main\0");
    assert_eq!(&SHADER_ENTRY_NAME_NUL[..SHADER_ENTRY_NAME.len()], SHADER_ENTRY_NAME);
}

#[test]
fn device_information_is_held() {
    let mut properties = vk::PhysicalDeviceProperties::default();
    properties.device_id = 77;
    let mut features = vk::PhysicalDeviceFeatures::default();
    features.geometry_shader = vk::TRUE;
    let mut memory = vk::PhysicalDeviceMemoryProperties::default();
    memory.memory_heap_count = 2;
    let b = bare_setup()
        .build_gpu_properties(properties)
        .build_gpu_feature(features)
        .build_mem_properties(memory);
    assert_eq!(b.gpu_properties_clone().map(|p| p.device_id), Ok(77));
    assert_eq!(b.gpu_feature_ref().map(|f| f.geometry_shader), Ok(vk::TRUE));
    assert_eq!(b.gpu_mem_properties_current_ref().map(|m| m.memory_heap_count), Ok(2));
    assert!(b.ash_device_clone().is_err());
    assert_eq!(b.gpu_suitable_queue_count_currrent(), 0);
}

#[test]
fn missing_parts_are_errors() {
    let b = bare_setup().build_apiversion(7).build_base_feature("AshVkBase".to_string()).build_appversion().check_push_out();
    assert_eq!(b.api_version(), 7);
    assert!(b.ash_entry_ref().is_err());
    assert!(b.ash_instance_ref().is_err());
    assert!(b.ash_device_clone().is_err());
    assert!(b.gpu_instance_ref().is_err());
    assert!(b.surface_loader_ref().is_err());
    assert!(b.gpu_feature_ref().is_err());
    assert!(b.gpu_mem_properties_current_ref().is_err());
    assert!(b.gpu_properties_clone().is_err());
    assert_eq!(b.gpu_suitable_queue_count_currrent(), 0);
}

#[test]
fn debug_messages_are_rated_and_laid_out() {
    assert_eq!(debug_severity(0x10), DebugSeverity::Info);
    assert_eq!(debug_severity(0x100), DebugSeverity::Warning);
    assert_eq!(debug_severity(0x1000), DebugSeverity::Error);
    assert_eq!(debug_severity(0x1), DebugSeverity::Unrated);
    let m = "Validation Error: [ VUID ] Object 0: handle. The Vulkan spec states: see https://x";
    assert_eq!(
        format_debug_message(m),
        "Validation Error:\n [ VUID ] Object 0:\n handle.\n The Vulkan spec states:\n see https://x"
    );
}

#[test]
fn window_messages() {
    assert_eq!(window_message_action(0x0111), WindowMessageAction::DefaultProcedure);
    assert_eq!(window_message_action(0x000F), WindowMessageAction::SkipPaint);
    assert_eq!(window_message_action(0x0010), WindowMessageAction::RequestClose);
    assert_eq!(window_message_action(0x0002), WindowMessageAction::PostQuit);
    assert_eq!(window_message_action(0x0200), WindowMessageAction::DefaultProcedure);
}

#[test]
fn window_frame_geometry() {
    let app = ApplicationD::build().build_appname("Dse".to_string());
    let mut w = WinWinodwE::from_work_area(800, 600).build().build_link_app(&app);
    assert_eq!(w.win_name(), Some("Dse".to_string()));
    w.set_wnd_width(1024);
    w.set_id(2);
    let frame = w.update_window_rect(8, 31, 1024, 768);
    assert_eq!(
        frame,
        WindowFrame { workarea_offset_x: 16, workarea_offset_y: 39, outer_width: 1040, outer_height: 807 }
    );
}

#[test]
fn api_version_packs_major_and_minor() {
    let app = ApplicationD::build().build_graphic_api(GraphicAPIType::Vk).build_graphic_api_version(1, 3);
    assert_eq!(app.graphic_api_version(), 4206592);
    let app = app.build_graphic_api_version(2, 0);
    assert_eq!(app.graphic_api_version(), 2 << 22);
}
