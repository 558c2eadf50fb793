# wgpu_llm

Building blocks of a wgpu inference engine for decoder-only language models.

- `src/` is the verified library:
  - `template`: `{{NAME}}` substitution into shader sources (`render`,
    `TemplateVars`), specified as `str::replace` applied variable by variable;
  - `template_laws`: what rendering does to a well-formed template (each set
    placeholder filled with its value, independently of the order of the
    variables);
  - `kernels`: the template variables, bindings and workgroup grids of the
    matrix multiply, embedding and layer-norm kernels; sizes fixed at model
    load are baked into the shader, the number of tokens (rows) of a launch
    is passed in a uniform buffer, so one pipeline serves every length;
  - `config`: reading a GPT-2 style `config.json` into a `DecoderConfig`;
  - `json`: the trusted reads of a `serde_json` document, named as
    functions of the JSON text;
  - `text`: character and decimal-notation helpers.
- `app/` holds the GPU side: device set-up, pipelines and dispatches with
  `wgpu`, the WGSL sources, and the config with its `f32` members.
- `tests/` exercises the library.
