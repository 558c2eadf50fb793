//! Launch geometry and shader parameters of the compute kernels.
//!
//! Each kernel bakes its sizes into its WGSL source through template
//! variables, and is launched over a grid of workgroups that covers every
//! output element.
use vstd::prelude::*;
use crate::template::{entries_map, keys_distinct, render, render_spec, TemplateVars};
use crate::template_laws::{
    brace_free, fill, flatten, lemma_render_fills, pieces_wf, vars_brace_free, Piece,
};
use crate::text::{decimal, decimal_string, is_digit, lemma_decimal};

verus! {

broadcast use vstd::string::group_string_axioms;

/// Side of the square workgroup tile of the matrix multiply.
pub const GEMM_TILE: u32 = 16;

/// Number of invocations in a workgroup of the per-token kernels.
pub const TOKEN_WORKGROUP_SIZE: u32 = 256;

/// The number of groups of `size` needed to cover `n` items: `n / size`
/// rounded up.
pub open spec fn ceil_div(n: int, size: int) -> int {
    (n + size - 1) / size
}

/// The number of workgroups of `size` invocations that covers `n` items
/// (`n.div_ceil(size)`): together they cover every item, and none of them
/// lies wholly past the last item.
pub fn workgroup_count(n: u32, size: u32) -> (r: u32)
    requires
        size > 0,
    ensures
        r == ceil_div(n as int, size as int),
        r * size >= n,
        r * size < n + size,
{
    let q = n / size;
    let rem = n % size;
    proof {
        lemma_ceil_div(n as int, size as int);
    }
    if rem == 0 {
        q
    } else {
        q + 1
    }
}

/// `ceil_div(n, size)` is `n / size`, plus one when `size` does not divide
/// `n`; that many groups cover `n` and fall short of `n + size`.
proof fn lemma_ceil_div(n: int, size: int)
    requires
        n >= 0,
        size > 0,
    ensures
        ceil_div(n, size) == (if n % size == 0 { n / size } else { n / size + 1 }),
        ceil_div(n, size) * size >= n,
        ceil_div(n, size) * size < n + size,
        n % size != 0 ==> n / size + 1 <= n,
{
    let q = n / size;
    let rem = n % size;
    vstd::arithmetic::div_mod::lemma_div_pos_is_pos(n, size);
    vstd::arithmetic::div_mod::lemma_fundamental_div_mod(n, size);
    assert(0 <= rem < size);
    assert(n == size * q + rem);
    if rem == 0 {
        vstd::arithmetic::div_mod::lemma_div_multiples_vanish_fancy(q, size - 1, size);
        assert(n + size - 1 == size * q + (size - 1));
    } else {
        vstd::arithmetic::div_mod::lemma_div_multiples_vanish_fancy(q + 1, rem - 1, size);
        assert(n + size - 1 == size * (q + 1) + (rem - 1)) by (nonlinear_arith)
            requires
                n == size * q + rem,
        ;
    }
    let c = ceil_div(n, size);
    assert(c * size >= n && c * size < n + size) by (nonlinear_arith)
        requires
            n == size * q + rem,
            0 <= rem < size,
            c == (if rem == 0 { q } else { q + 1 }),
    ;
    assert(rem != 0 ==> q + 1 <= n) by (nonlinear_arith)
        requires
            n == size * q + rem,
            0 <= rem < size,
            size > 0,
            q >= 0,
    ;
}

/// The variables of the matrix-multiply shader: the inner dimension `k`, the
/// number of columns `n` and the two sides of the workgroup tile. The number
/// of rows (one per token) changes from one launch to the next, so it is not
/// baked into the source: the kernel reads it from a uniform buffer.
pub open spec fn gemm_vars(n: u32, k: u32) -> Seq<(Seq<char>, Seq<char>)> {
    seq![
        (seq!['N'], decimal(n as nat)),
        (seq!['K'], decimal(k as nat)),
        (seq!['W', 'G', '_', 'X'], decimal(GEMM_TILE as nat)),
        (seq!['W', 'G', '_', 'Y'], decimal(GEMM_TILE as nat)),
    ]
}

/// The variables of a per-token shader: hidden size and workgroup size. The
/// number of tokens changes from one launch to the next, so it is not baked
/// into the source: the kernel reads it from a uniform buffer.
pub open spec fn token_kernel_vars(hidden_size: u32) -> Seq<(Seq<char>, Seq<char>)> {
    seq![
        (seq!['H', 'I', 'D', 'D', 'E', 'N', '_', 'S', 'I', 'Z', 'E'], decimal(hidden_size as nat)),
        (seq!['W', 'G', '_', 'S', 'I', 'Z', 'E'], decimal(TOKEN_WORKGROUP_SIZE as nat)),
    ]
}

/// How a kernel uses one of its buffer bindings.
pub enum BindingKind {
    /// A storage buffer that the shader only reads.
    ReadOnlyStorage,
    /// A storage buffer that the shader writes.
    Storage,
    /// A uniform buffer of launch parameters.
    Uniform,
}

/// The bindings of a per-token kernel, in binding order: three inputs, the
/// output, and the uniform holding the number of tokens.
pub open spec fn token_kernel_bindings() -> Seq<BindingKind> {
    seq![
        BindingKind::ReadOnlyStorage,
        BindingKind::ReadOnlyStorage,
        BindingKind::ReadOnlyStorage,
        BindingKind::Storage,
        BindingKind::Uniform,
    ]
}

/// The bindings of the matrix multiply, in binding order: `A`, `B`, `C`,
/// and the uniform holding the number of rows.
pub open spec fn gemm_bindings() -> Seq<BindingKind> {
    seq![
        BindingKind::ReadOnlyStorage,
        BindingKind::ReadOnlyStorage,
        BindingKind::Storage,
        BindingKind::Uniform,
    ]
}

/// The bindings of a per-token kernel.
fn token_bindings() -> (r: Vec<BindingKind>)
    ensures
        r@ == token_kernel_bindings(),
        r@.len() == 5,
        r@[0] is ReadOnlyStorage,
        r@[1] is ReadOnlyStorage,
        r@[2] is ReadOnlyStorage,
        r@[3] is Storage,
        r@[4] is Uniform,
{
    let r = vec![
        BindingKind::ReadOnlyStorage,
        BindingKind::ReadOnlyStorage,
        BindingKind::ReadOnlyStorage,
        BindingKind::Storage,
        BindingKind::Uniform,
    ];
    assert(r@ =~= token_kernel_bindings());
    r
}

/// The variables of a per-token shader, in the order of `token_kernel_vars`.
fn token_template_vars(hidden_size: u32) -> (r: TemplateVars)
    ensures
        r@ == token_kernel_vars(hidden_size),
        r.as_map() == Map::<Seq<char>, Seq<char>>::empty().insert(seq!['H', 'I', 'D', 'D', 'E', 'N', '_', 'S', 'I', 'Z', 'E'], decimal(hidden_size as nat)).insert(seq!['W', 'G', '_', 'S', 'I', 'Z', 'E'], decimal(256)),
{
    proof {
        reveal_strlit("HIDDEN_SIZE");
        assert("HIDDEN_SIZE"@ =~= seq!['H', 'I', 'D', 'D', 'E', 'N', '_', 'S', 'I', 'Z', 'E']);
        reveal_strlit("WG_SIZE");
        assert("WG_SIZE"@ =~= seq!['W', 'G', '_', 'S', 'I', 'Z', 'E']);
    }
    let mut vars = TemplateVars::new();
    vars.insert("HIDDEN_SIZE", decimal_string(hidden_size));
    let ghost v1 = vars@;
    assert(v1[0].0 != "WG_SIZE"@);
    vars.insert("WG_SIZE", decimal_string(TOKEN_WORKGROUP_SIZE));
    assert(vars@ =~= token_kernel_vars(hidden_size));
    proof {
        lemma_token_vars_map(hidden_size);
    }
    vars
}

/// A matrix multiply `C (m x n) = A (m x k) * B (k x n)` for any number of
/// rows `m`, given at each launch.
pub struct GemmShape {
    pub n: u32,
    pub k: u32,
}

impl GemmShape {
    /// The multiply by a `k x n` matrix.
    pub fn new(n: u32, k: u32) -> (r: GemmShape)
        ensures
            r.n == n,
            r.k == k,
    {
        GemmShape { n, k }
    }

    /// The template variables of the shader, as the kernel sets them.
    pub fn template_vars(&self) -> (r: TemplateVars)
        ensures
            r@ == gemm_vars(self.n, self.k),
            r.as_map() == Map::<Seq<char>, Seq<char>>::empty().insert(seq!['N'], decimal(self.n as nat)).insert(
                seq!['K'],
                decimal(self.k as nat),
            ).insert(seq!['W', 'G', '_', 'X'], decimal(16)).insert(seq!['W', 'G', '_', 'Y'], decimal(16)),
    {
        proof {
            reveal_strlit("N");
            assert("N"@ =~= seq!['N']);
            reveal_strlit("K");
            assert("K"@ =~= seq!['K']);
            reveal_strlit("WG_X");
            assert("WG_X"@ =~= seq!['W', 'G', '_', 'X']);
            reveal_strlit("WG_Y");
            assert("WG_Y"@ =~= seq!['W', 'G', '_', 'Y']);
        }
        let mut vars = TemplateVars::new();
        vars.insert("N", decimal_string(self.n));
        let ghost v1 = vars@;
        assert(v1[0].0[0] != "K"@[0]);
        vars.insert("K", decimal_string(self.k));
        let ghost v2 = vars@;
        assert(v2[0].0 != "WG_X"@ && v2[1].0 != "WG_X"@);
        vars.insert("WG_X", decimal_string(GEMM_TILE));
        let ghost v3 = vars@;
        assert(v3[0].0 != "WG_Y"@ && v3[1].0 != "WG_Y"@ && v3[2].0 != "WG_Y"@);
        vars.insert("WG_Y", decimal_string(GEMM_TILE));
        assert(vars@ =~= gemm_vars(self.n, self.k));
        proof {
            lemma_gemm_vars_map(self.n, self.k);
        }
        vars
    }

    /// The shader source with the sizes substituted into `template`; it is
    /// the same for every number of rows, so one pipeline serves every
    /// launch.
    pub fn shader_source(&self, template: &str) -> (r: String)
        ensures
            r@ == render_spec(template@, gemm_vars(self.n, self.k)),
    {
        let vars = self.template_vars();
        render(template, &vars)
    }

    /// The bindings of the kernel, in binding order.
    pub fn bindings(&self) -> (r: Vec<BindingKind>)
        ensures
            r@ == gemm_bindings(),
            r@.len() == 4,
            r@[0] is ReadOnlyStorage,
            r@[1] is ReadOnlyStorage,
            r@[2] is Storage,
            r@[3] is Uniform,
    {
        let r = vec![
            BindingKind::ReadOnlyStorage,
            BindingKind::ReadOnlyStorage,
            BindingKind::Storage,
            BindingKind::Uniform,
        ];
        assert(r@ =~= gemm_bindings());
        r
    }

    /// The workgroup grid of a launch over `m` rows: one `16 x 16` tile of
    /// `C` per workgroup, covering all `m` rows and `n` columns.
    pub fn workgroups(&self, m: u32) -> (r: (u32, u32, u32))
        ensures
            r.0 == ceil_div(m as int, GEMM_TILE as int),
            r.1 == ceil_div(self.n as int, GEMM_TILE as int),
            r.2 == 1,
            r.0 * GEMM_TILE >= m,
            r.1 * GEMM_TILE >= self.n,
            r.0 * GEMM_TILE < m + GEMM_TILE,
            r.1 * GEMM_TILE < self.n + GEMM_TILE,
    {
        let x = workgroup_count(m, GEMM_TILE);
        let y = workgroup_count(self.n, GEMM_TILE);
        (x, y, 1)
    }
}

/// A token-embedding lookup producing rows of `hidden_size`.
pub struct EmbeddingShape {
    pub hidden_size: u32,
}

impl EmbeddingShape {
    /// The kernel for rows of width `hidden_size`; the number of tokens is
    /// given at each launch.
    pub fn new(hidden_size: u32) -> (r: EmbeddingShape)
        ensures
            r.hidden_size == hidden_size,
    {
        EmbeddingShape { hidden_size }
    }

    /// The template variables of the shader, as the kernel sets them.
    pub fn template_vars(&self) -> (r: TemplateVars)
        ensures
            r@ == token_kernel_vars(self.hidden_size),
            r.as_map() == Map::<Seq<char>, Seq<char>>::empty().insert(seq!['H', 'I', 'D', 'D', 'E', 'N', '_', 'S', 'I', 'Z', 'E'], decimal(self.hidden_size as nat)).insert(seq!['W', 'G', '_', 'S', 'I', 'Z', 'E'], decimal(256)),
    {
        token_template_vars(self.hidden_size)
    }

    /// The shader source with the hidden size substituted into `template`;
    /// it is the same for every number of tokens, so one pipeline serves
    /// every launch.
    pub fn shader_source(&self, template: &str) -> (r: String)
        ensures
            r@ == render_spec(template@, token_kernel_vars(self.hidden_size)),
    {
        let vars = self.template_vars();
        render(template, &vars)
    }

    /// The bindings of the kernel, in binding order.
    pub fn bindings(&self) -> (r: Vec<BindingKind>)
        ensures
            r@ == token_kernel_bindings(),
            r@.len() == 5,
            r@[0] is ReadOnlyStorage,
            r@[1] is ReadOnlyStorage,
            r@[2] is ReadOnlyStorage,
            r@[3] is Storage,
            r@[4] is Uniform,
    {
        token_bindings()
    }

    /// The workgroup grid of a launch over `num_tokens` tokens: one
    /// invocation per token.
    pub fn workgroups(&self, num_tokens: u32) -> (r: (u32, u32, u32))
        ensures
            r.0 == ceil_div(num_tokens as int, TOKEN_WORKGROUP_SIZE as int),
            r.1 == 1,
            r.2 == 1,
            r.0 * TOKEN_WORKGROUP_SIZE >= num_tokens,
            r.0 * TOKEN_WORKGROUP_SIZE < num_tokens + TOKEN_WORKGROUP_SIZE,
    {
        (workgroup_count(num_tokens, TOKEN_WORKGROUP_SIZE), 1, 1)
    }
}

/// A layer normalisation over rows of `hidden_size`.
pub struct LayerNormShape {
    pub hidden_size: u32,
}

impl LayerNormShape {
    /// The kernel for rows of width `hidden_size`; the number of tokens is
    /// given at each launch.
    pub fn new(hidden_size: u32) -> (r: LayerNormShape)
        ensures
            r.hidden_size == hidden_size,
    {
        LayerNormShape { hidden_size }
    }

    /// The template variables of the shader, as the kernel sets them.
    pub fn template_vars(&self) -> (r: TemplateVars)
        ensures
            r@ == token_kernel_vars(self.hidden_size),
            r.as_map() == Map::<Seq<char>, Seq<char>>::empty().insert(seq!['H', 'I', 'D', 'D', 'E', 'N', '_', 'S', 'I', 'Z', 'E'], decimal(self.hidden_size as nat)).insert(seq!['W', 'G', '_', 'S', 'I', 'Z', 'E'], decimal(256)),
    {
        token_template_vars(self.hidden_size)
    }

    /// The shader source with the hidden size substituted into `template`;
    /// it is the same for every number of tokens, so one pipeline serves
    /// every launch.
    pub fn shader_source(&self, template: &str) -> (r: String)
        ensures
            r@ == render_spec(template@, token_kernel_vars(self.hidden_size)),
    {
        let vars = self.template_vars();
        render(template, &vars)
    }

    /// The bindings of the kernel, in binding order.
    pub fn bindings(&self) -> (r: Vec<BindingKind>)
        ensures
            r@ == token_kernel_bindings(),
            r@.len() == 5,
            r@[0] is ReadOnlyStorage,
            r@[1] is ReadOnlyStorage,
            r@[2] is ReadOnlyStorage,
            r@[3] is Storage,
            r@[4] is Uniform,
    {
        token_bindings()
    }

    /// The workgroup grid of a launch over `num_tokens` token rows: one
    /// invocation per token.
    pub fn workgroups(&self, num_tokens: u32) -> (r: (u32, u32, u32))
        ensures
            r.0 == ceil_div(num_tokens as int, TOKEN_WORKGROUP_SIZE as int),
            r.1 == 1,
            r.2 == 1,
            r.0 * TOKEN_WORKGROUP_SIZE >= num_tokens,
            r.0 * TOKEN_WORKGROUP_SIZE < num_tokens + TOKEN_WORKGROUP_SIZE,
    {
        (workgroup_count(num_tokens, TOKEN_WORKGROUP_SIZE), 1, 1)
    }
}

/// The matrix-multiply variables set `N` to `n`, `K` to `k` and both tile
/// sides to 16, in decimal.
pub proof fn lemma_gemm_vars_map(n: u32, k: u32)
    ensures
        entries_map(gemm_vars(n, k)) == Map::<Seq<char>, Seq<char>>::empty().insert(seq!['N'], decimal(n as nat)).insert(
                seq!['K'],
                decimal(k as nat),
            ).insert(seq!['W', 'G', '_', 'X'], decimal(16)).insert(seq!['W', 'G', '_', 'Y'], decimal(16)),
{
    let v = gemm_vars(n, k);
    let v0 = Seq::<(Seq<char>, Seq<char>)>::empty();
    let v1 = seq![v[0]];
    let v2 = seq![v[0], v[1]];
    let v3 = seq![v[0], v[1], v[2]];
    assert(v1.drop_last() =~= v0);
    assert(v2.drop_last() =~= v1);
    assert(v3.drop_last() =~= v2);
    assert(v.drop_last() =~= v3);
    assert(entries_map(v0) == Map::<Seq<char>, Seq<char>>::empty());
    assert(entries_map(v1) == entries_map(v0).insert(v[0].0, v[0].1));
    assert(entries_map(v2) == entries_map(v1).insert(v[1].0, v[1].1));
    assert(entries_map(v3) == entries_map(v2).insert(v[2].0, v[2].1));
    assert(entries_map(v) == entries_map(v3).insert(v[3].0, v[3].1));
}

/// The per-token variables set `HIDDEN_SIZE` to the hidden size and
/// `WG_SIZE` to 256, in decimal.
pub proof fn lemma_token_vars_map(hidden_size: u32)
    ensures
        entries_map(token_kernel_vars(hidden_size)) == Map::<Seq<char>, Seq<char>>::empty().insert(seq!['H', 'I', 'D', 'D', 'E', 'N', '_', 'S', 'I', 'Z', 'E'], decimal(hidden_size as nat)).insert(seq!['W', 'G', '_', 'S', 'I', 'Z', 'E'], decimal(256)),
{
    let v = token_kernel_vars(hidden_size);
    let v0 = Seq::<(Seq<char>, Seq<char>)>::empty();
    let v1 = seq![v[0]];
    assert(v1.drop_last() =~= v0);
    assert(v.drop_last() =~= v1);
    assert(entries_map(v0) == Map::<Seq<char>, Seq<char>>::empty());
    assert(entries_map(v1) == entries_map(v0).insert(v[0].0, v[0].1));
    assert(entries_map(v) == entries_map(v1).insert(v[1].0, v[1].1));
}

/// Decimal notation holds no braces.
proof fn lemma_decimal_brace_free(n: nat)
    ensures
        brace_free(decimal(n)),
{
    lemma_decimal(n);
    assert forall|i: int| 0 <= i < decimal(n).len() implies #[trigger] decimal(n)[i] != '{'
        && decimal(n)[i] != '}' by {
        assert(is_digit(decimal(n)[i]));
    }
}

/// The matrix-multiply shader's variables have distinct keys and hold no
/// braces, so a well-formed shader template renders to the template with
/// each of their placeholders filled, in whatever order they are applied.
pub proof fn lemma_gemm_source(ps: Seq<Piece>, n: u32, k: u32)
    requires
        pieces_wf(ps),
    ensures
        keys_distinct(gemm_vars(n, k)),
        vars_brace_free(gemm_vars(n, k)),
        render_spec(flatten(ps), gemm_vars(n, k)) == flatten(
            fill(
                ps,
                Map::<Seq<char>, Seq<char>>::empty().insert(seq!['N'], decimal(n as nat)).insert(
                    seq!['K'],
                    decimal(k as nat),
                ).insert(seq!['W', 'G', '_', 'X'], decimal(16)).insert(seq!['W', 'G', '_', 'Y'], decimal(16)),
            ),
        ),
{
    lemma_gemm_vars_map(n, k);
    let vars = gemm_vars(n, k);
    lemma_decimal_brace_free(n as nat);
    lemma_decimal_brace_free(k as nat);
    lemma_decimal_brace_free(GEMM_TILE as nat);
    assert(keys_distinct(vars)) by {
        assert forall|a: int, b: int| 0 <= a < b < vars.len() implies #[trigger] vars[a].0
            != #[trigger] vars[b].0 by {
            if vars[a].0.len() == vars[b].0.len() {
                if vars[a].0.len() == 1 {
                    assert(vars[a].0[0] != vars[b].0[0]);
                } else {
                    assert(vars[a].0[3] != vars[b].0[3]);
                }
            }
        }
    }
    assert(vars_brace_free(vars));
    lemma_render_fills(ps, vars);
}

/// The per-token shaders' variables have distinct keys and hold no braces,
/// so a well-formed shader template renders to the template with each of
/// their placeholders filled, in whatever order they are applied.
pub proof fn lemma_token_kernel_source(ps: Seq<Piece>, hidden_size: u32)
    requires
        pieces_wf(ps),
    ensures
        keys_distinct(token_kernel_vars(hidden_size)),
        vars_brace_free(token_kernel_vars(hidden_size)),
        render_spec(flatten(ps), token_kernel_vars(hidden_size)) == flatten(
            fill(
                ps,
                Map::<Seq<char>, Seq<char>>::empty().insert(
                    seq!['H', 'I', 'D', 'D', 'E', 'N', '_', 'S', 'I', 'Z', 'E'],
                    decimal(hidden_size as nat),
                ).insert(seq!['W', 'G', '_', 'S', 'I', 'Z', 'E'], decimal(256)),
            ),
        ),
{
    lemma_token_vars_map(hidden_size);
    let vars = token_kernel_vars(hidden_size);
    lemma_decimal_brace_free(hidden_size as nat);
    lemma_decimal_brace_free(TOKEN_WORKGROUP_SIZE as nat);
    assert(keys_distinct(vars)) by {
        assert forall|a: int, b: int| 0 <= a < b < vars.len() implies #[trigger] vars[a].0
            != #[trigger] vars[b].0 by {
            assert(vars[a].0.len() != vars[b].0.len());
        }
    }
    assert(vars_brace_free(vars));
    lemma_render_fills(ps, vars);
}

} // verus!
