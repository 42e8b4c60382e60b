# model_runtime

Model architectures for an inference runtime, with their contracts proved by
Verus.

The library describes each network as the tensors it holds — their shapes,
element types, devices and elements (as bit patterns) — and proves what
building, moving and loading a model does to them:

- `src/<model>.rs` (Baichuan, BERT, BLOOM, ChatGLM, CLIP, CogVLM, DBRX,
  Encodec, Falcon, Florence, Gemma, GPT-2, GPT-J, GPT-NeoX, HuBERT, InternVL,
  Jamba, Llama, LLaVA, Mamba, MiniCPM, Mixtral, MPT, OPT): the configuration
  with its defaults and its mapping from GGUF metadata, the model structure as
  built for a configuration (`new`), the move to another device
  (`to_device`), loading named checkpoint tensors (`from_weights`), and the
  memory estimate.
- `src/tensor.rs`: a tensor as shape, element type, device and elements;
  zeros, copies, moves, transposes.
- `src/attention.rs`: the integer decisions of an attention pass: reading
  the hidden states' shape, the packed query/key/value layout, shared
  key-value heads, cache positions and the causal mask.
- `src/weights.rs`: named checkpoint tensors, the names models look up, and
  how a weight takes a tensor (copied, transposed, or squeezed).
- `src/generation.rs`: the token bookkeeping of autoregressive generation:
  the budget of new tokens and the stop at the end-of-sequence token.
- `src/common.rs`, `src/gguf.rs`: shared records and errors.

Floating-point hyperparameters are carried as their IEEE 754 bit patterns and
never computed with.

`app/` holds what works with floating-point logits and random numbers
(choosing the next token, driving a generation request), and serializable
copies of the configurations. `tests/` exercises the library.
