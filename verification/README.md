# protobuf_reflect

Reflective values for protobuf, verified with Verus.

A `ReflectValueBox` owns a value of any singular protobuf type (integers,
floats, `bool`, strings, bytes, enum values, messages); a `ReflectValueRef`
borrows one. Messages are held as `DynamicMessage`: the message type's
descriptor and one value per field. `f32` and `f64` values are carried by
their IEEE 754 bit patterns.

Every function states its result over a mathematical model (`ValueView`):

- `src/value.rs`, `src/value_ref.rs`: the value types, their models, deep
  copies, typed getters, `to_box` / `as_value_ref`, `_is_non_zero`;
- `src/eq.rs`: `==` (IEEE float semantics) and `reflect_eq` (NaN-aware);
- `src/laws.rs`: symmetry, transitivity and reflexivity of both equalities,
  `==` implying `reflect_eq`, and "non-zero" meaning "not the default";
- `src/hash.rs`: what hashing a value hashes, and that equal values hash
  alike;
- `src/protobuf_value.rs`: `downcast` to a typed value and the
  `ProtobufValue` / `ProtobufValueSized` traits;
- `src/convert.rs`, `src/descriptor.rs`, `src/message.rs`,
  `src/float_bits.rs`: conversions, descriptors, message references, IEEE
  predicates on bit patterns.

`app/lib.rs` converts between real floats and bit patterns and feeds hash
keys to a `Hasher`.
