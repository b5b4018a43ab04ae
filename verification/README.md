# entrait_macros

The code generation behind the `entrait` attribute macros, verified with Verus.

`entrait` turns a function (or a module of functions, or an impl block) into a trait with
an implementation that calls the function, and gives hand-written traits their delegating
implementations for `Impl<T>`. This crate holds that logic on plain values: source is read
as a flat list of tokens (a group is an opening token, its contents and a closing token),
and Rust syntax the logic looks into (signatures, types, generics, patterns) is read into
small models.

Layout:

- `src/` — the verified library. `input_attr`, `attr_parse` and `opt` read the attribute
  and its options; `item_parse` splits the annotated item (a function, or the contents of a
  module or impl block) into parts; `analyze_generics`,
  `trait_fn` and `converter` find each function's dependency and turn its signature into the
  trait method's; `fn_params` gives every parameter a plain name; `slots` marks where a type's
  lifetimes sit and `lifetimes` makes left-out ones explicit; `trait_codegen`, `fn_delegation_codegen`, `generics`, `attributes` and
  `render` write the generated items; `entrait_fn`, `entrait_trait` and `entrait_impl` put
  them together, and `invoke` applies the macro variants' default options. `static_async`
  is `static_async_trait`, which the associated-future strategy puts on generated traits and
  impls: each `async fn` of a trait, or of a trait impl, becomes a plain method returning
  `Self::Fut<..>` (its lifetimes made explicit, the made-up ones added to its generic
  parameters) beside a `type Fut<..>` declared as `::core::future::Future<Output = T> + Send`
  in the trait and defined as an `impl` future in the impl, whose method body becomes
  `async move { .. }`; every other item stays as written.
- `app/` — the macro entry points: token streams in and out, and the parse of the item into
  the library's models.
- `tests/` — the library run on the items of the macro's usage scenarios, and on small
  inputs for each error and rule.
