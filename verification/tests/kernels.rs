use wgpu_llm::kernels::{
    workgroup_count, BindingKind, EmbeddingShape, GemmShape, LayerNormShape, GEMM_TILE,
    TOKEN_WORKGROUP_SIZE,
};

#[test]
fn workgroup_count_rounds_up() {
    assert_eq!(workgroup_count(0, 16), 0);
    assert_eq!(workgroup_count(1, 16), 1);
    assert_eq!(workgroup_count(16, 16), 1);
    assert_eq!(workgroup_count(17, 16), 2);
    assert_eq!(workgroup_count(1024, 256), 4);
    assert_eq!(workgroup_count(1025, 256), 5);
    assert_eq!(workgroup_count(u32::MAX, 256), 16777216);
    assert_eq!(workgroup_count(u32::MAX, 1), u32::MAX);
}

#[test]
fn gemm_workgroups_cover_the_output() {
    assert_eq!(GemmShape::new(32, 32).workgroups(32), (2, 2, 1));
    assert_eq!(GemmShape::new(5, 7).workgroups(33), (3, 1, 1));
    assert_eq!(GemmShape::new(16, 1).workgroups(0), (0, 1, 1));
    assert_eq!(GEMM_TILE, 16);
}

#[test]
fn gemm_shader_source_bakes_in_fixed_sizes_only() {
    let shape = GemmShape::new(48, 7);
    let template = "M={{M}} N={{N}} K={{K}} WG=({{WG_X}},{{WG_Y}})";
    assert_eq!(shape.shader_source(template), "M={{M}} N=48 K=7 WG=(16,16)");
    let vars = shape.template_vars();
    assert_eq!(vars.len(), 4);
    assert_eq!(vars.get("K"), Some(&"7".to_string()));
    assert_eq!(vars.get("WG_Y"), Some(&"16".to_string()));
    assert_eq!(vars.get("M"), None);
}

#[test]
fn token_kernels_bake_in_hidden_size_only() {
    let template = "{{HIDDEN_SIZE}} {{NUM_TOKENS}} {{WG_SIZE}}";
    assert_eq!(EmbeddingShape::new(768).shader_source(template), "768 {{NUM_TOKENS}} 256");
    assert_eq!(LayerNormShape::new(512).shader_source(template), "512 {{NUM_TOKENS}} 256");
    assert_eq!(EmbeddingShape::new(768).template_vars().len(), 2);
    assert_eq!(TOKEN_WORKGROUP_SIZE, 256);
}

#[test]
fn token_kernels_launch_one_invocation_per_token() {
    assert_eq!(EmbeddingShape::new(768).workgroups(1024), (4, 1, 1));
    assert_eq!(EmbeddingShape::new(768).workgroups(1000), (4, 1, 1));
    assert_eq!(LayerNormShape::new(512).workgroups(1025), (5, 1, 1));
    assert_eq!(LayerNormShape::new(512).workgroups(1), (1, 1, 1));
}

#[test]
fn kernel_bindings() {
    let gemm = GemmShape::new(4, 4).bindings();
    assert_eq!(gemm.len(), 4);
    assert!(matches!(gemm[0], BindingKind::ReadOnlyStorage));
    assert!(matches!(gemm[1], BindingKind::ReadOnlyStorage));
    assert!(matches!(gemm[2], BindingKind::Storage));
    assert!(matches!(gemm[3], BindingKind::Uniform));
    for b in [EmbeddingShape::new(8).bindings(), LayerNormShape::new(8).bindings()] {
        assert_eq!(b.len(), 5);
        assert!(matches!(b[0], BindingKind::ReadOnlyStorage));
        assert!(matches!(b[2], BindingKind::ReadOnlyStorage));
        assert!(matches!(b[3], BindingKind::Storage));
        assert!(matches!(b[4], BindingKind::Uniform));
    }
}
