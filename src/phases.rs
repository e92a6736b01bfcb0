//! The four phases of the lowering engine over whole tables, and the
//! compilation of a metadata root or an image.
use vstd::prelude::*;
use crate::cil::{Instruction, MethodBody};
use crate::compiler::{
    export_entry, header_entry, lemma_member_refs_error_stays, lemma_methods_error_stays,
    lemma_traversal_mono, lemma_types_error_stays, member_ref_step, member_refs_error,
    method_sig, methods_error, required, string_exec, traversal, type_header_error,
    type_prefix, types_error, utf8_str, grows, WasmContext, method_step, blob_sig,
};
use crate::error::Error;
use crate::image::Image;
use crate::indices::{MemberRefIndex, MethodDefIndex, TypeDefIndex};
use crate::lower::{lower_function, lower_sig, MemberRefCacheData, MethodCacheData, StringCacheData};
use crate::wasm::{ValTy, WasmInstr};
use crate::heap::UserStringIndex;
use crate::tables::MethodDef;
use crate::metadata::MetadataRoot;
use crate::tables::{MetadataTable, TypeDef};
use crate::heap::{user_string_offsets, Heap};
use crate::wasm::{codes_of, data_of, exports_of, functions_of, imports_of, memories_of, module_bytes, types_of};

verus! {

impl WasmContext {
    /// Phase 3 for one type: declares and exports each method that it owns,
    /// named `[namespace]type::method`.
    #[verifier::rlimit(100)]
    #[verifier::spinoff_prover]
    pub fn emit_wasm_type_header(
        &mut self,
        ty_index: TypeDefIndex,
        ty_def: &TypeDef,
        table: &MetadataTable,
        heap: Heap,
    ) -> (r: Result<(), Error>)
        requires
            old(self).wf(),
        ensures
            final(self).wf(),
            final(self).imports == old(self).imports,
            final(self).member_ref_cache@ == old(self).member_ref_cache@,
            final(self).string_cache@ == old(self).string_cache@,
            final(self).data == old(self).data,
            final(self).memory == old(self).memory,
            final(self).codes == old(self).codes,
            grows(types_of(old(self).types), types_of(final(self).types), (ty_index.spec_method_range(
                table,
            ).1 - ty_index.spec_method_range(table).0) as int),
            grows(exports_of(old(self).exports), exports_of(final(self).exports), span(ty_index, table)),
            grows(functions_of(old(self).functions), functions_of(final(self).functions), span(ty_index, table)),
            old(self).room(span(ty_index, table)) && ty_index.spec_method_range(table).1 <= u32::MAX
                ==> match type_header_error(
                *ty_def,
                ty_index.spec_method_range(table).0 as int,
                ty_index.spec_method_range(table).1 as int,
                table,
                heap,
            ) {
                Some(e) => r == Err::<(), Error>(e),
                None => r is Ok,
            },
            r is Ok ==> type_header_error(
                *ty_def,
                ty_index.spec_method_range(table).0 as int,
                ty_index.spec_method_range(table).1 as int,
                table,
                heap,
            ) is None,
            r is Ok ==> exports_of(final(self).exports).len() == exports_of(old(self).exports).len()
                + span(ty_index, table),
            r is Ok ==> forall|j: int|
                0 <= j < span(ty_index, table) ==> {
                    let st = header_entry(
                        *ty_def,
                        table.method_def@[ty_index.spec_method_range(table).0 + j],
                        heap,
                    );
                    let f = functions_of(old(self).functions).len() + j;
                    &&& (#[trigger] exports_of(final(self).exports)[exports_of(old(self).exports).len()
                        + j]).0 == st.0
                    &&& functions_of(final(self).functions)[f] < types_of(final(self).types).len()
                    &&& types_of(final(self).types)[functions_of(final(self).functions)[f] as int]
                        == lower_sig(st.1)->0
                },
            r is Ok ==> {
                let (lo, hi) = ty_index.spec_method_range(table);
                &&& final(self).method_cache@.len() == old(self).method_cache@.len() + (hi - lo)
                &&& forall|j: int|
                    0 <= j < hi - lo ==> (#[trigger] final(self).method_cache@[old(
                        self,
                    ).method_cache@.len() + j]).0 == MethodDefIndex((lo + j + 1) as u32)
            },
    {
        let namespace = string_exec(heap, ty_def.namespace)?;
        let ty_name = required(ty_def.name.resolve(heap))?;
        let ghost ns = match namespace {
            Some(n) => Some(n@),
            None => None::<Seq<u8>>,
        };
        assert(type_prefix(*ty_def, heap) == Ok::<(Option<Seq<u8>>, Seq<u8>), Error>((ns, ty_name@)));
        let (lo, hi) = ty_index.method_range(table);
        assert(lo <= hi);
        let mut m = lo;
        let ghost start = self.method_cache@.len();
        let ghost e0 = exports_of(self.exports).len();
        let ghost f0 = functions_of(self.functions).len();
        while m < hi
            invariant
                lo <= m <= hi,
                hi == ty_index.spec_method_range(table).1,
                lo == ty_index.spec_method_range(table).0,
                lo < hi ==> hi <= table.method_def@.len(),
                type_prefix(*ty_def, heap) == Ok::<(Option<Seq<u8>>, Seq<u8>), Error>((ns, ty_name@)),
                ns == (match namespace {
                    Some(n) => Some(n@),
                    None => None::<Seq<u8>>,
                }),
                self.wf(),
                self.imports == old(self).imports,
                self.member_ref_cache@ == old(self).member_ref_cache@,
                self.string_cache@ == old(self).string_cache@,
                self.data == old(self).data,
                self.memory == old(self).memory,
                self.codes == old(self).codes,
                start == old(self).method_cache@.len(),
                e0 == exports_of(old(self).exports).len(),
                f0 == functions_of(old(self).functions).len(),
                old(self).wf(),
                self.method_cache@.len() == start + (m - lo),
                grows(types_of(old(self).types), types_of(self.types), m - lo),
                grows(exports_of(old(self).exports), exports_of(self.exports), m - lo),
                exports_of(self.exports).len() == e0 + (m - lo),
                grows(functions_of(old(self).functions), functions_of(self.functions), m - lo),
                functions_of(self.functions).len() == f0 + (m - lo),
                grows(old(self).method_cache@, self.method_cache@, m - lo),
                methods_error(ns, ty_name@, table, heap, lo as int, m as int) is None,
                forall|j: int|
                    0 <= j < m - lo ==> {
                        let st = header_entry(*ty_def, table.method_def@[lo + j], heap);
                        &&& (#[trigger] self.method_cache@[start + j]).0 == MethodDefIndex(
                            (lo + j + 1) as u32,
                        )
                        &&& exports_of(self.exports)[e0 + j].0 == st.0
                        &&& functions_of(self.functions)[f0 + j] < types_of(self.types).len()
                        &&& types_of(self.types)[functions_of(self.functions)[f0 + j] as int]
                            == lower_sig(st.1)->0
                    },
            decreases hi - m,
        {
            let method_def = &table.method_def[m];
            let method_name = match required(method_def.name.resolve(heap)) {
                Ok(v) => v,
                Err(e) => {
                    proof {
                        lemma_methods_error_stays(ns, ty_name@, table, heap, lo as int, m + 1, hi as int);
                    }
                    return Err(e);
                },
            };
            let full = Self::get_method_full_name(namespace, ty_name, method_name);
            let name = match utf8_str(full.as_slice()) {
                Some(s) => s,
                None => {
                    proof {
                        lemma_methods_error_stays(ns, ty_name@, table, heap, lo as int, m + 1, hi as int);
                    }
                    return Err(Error::BadInput);
                },
            };
            let sig = match method_sig(heap, method_def.signature) {
                Ok(v) => v,
                Err(e) => {
                    proof {
                        lemma_methods_error_stays(ns, ty_name@, table, heap, lo as int, m + 1, hi as int);
                    }
                    return Err(e);
                },
            };
            if m >= u32::MAX as usize {
                return Err(Error::BadIndex);
            }
            let ghost types_before = types_of(self.types);
            let ghost functions_before = functions_of(self.functions);
            let ghost exports_before = exports_of(self.exports);
            let ghost cache_before = self.method_cache@;
            proof {
                if old(self).room((hi - lo) as int) {
                    assert(!self.full());
                }
            }
            match self.emit_wasm_function_header(name, MethodDefIndex((m + 1) as u32), sig) {
                Ok(()) => {},
                Err(e) => {
                    proof {
                        if old(self).room((hi - lo) as int) {
                            assert(methods_error(ns, ty_name@, table, heap, lo as int, m + 1) is Some);
                            lemma_methods_error_stays(ns, ty_name@, table, heap, lo as int, m + 1, hi as int);
                        }
                    }
                    return Err(e);
                },
            }
            proof {
                let j0 = m - lo;
                assert(method_step(ns, ty_name@, table.method_def@[m as int], heap) is Ok);
                assert forall|j: int| 0 <= j <= j0 implies {
                    let st = header_entry(*ty_def, table.method_def@[lo + j], heap);
                    &&& (#[trigger] self.method_cache@[start + j]).0 == MethodDefIndex(
                        (lo + j + 1) as u32,
                    )
                    &&& exports_of(self.exports)[e0 + j].0 == st.0
                    &&& functions_of(self.functions)[f0 + j] < types_of(self.types).len()
                    &&& types_of(self.types)[functions_of(self.functions)[f0 + j] as int]
                        == lower_sig(st.1)->0
                } by {
                    if j < j0 {
                        assert(self.method_cache@[start + j] == cache_before[start + j]);
                        assert(exports_of(self.exports)[e0 + j] == exports_before[e0 + j]);
                        assert(functions_of(self.functions)[f0 + j] == functions_before[f0 + j]);
                        let ti = functions_before[f0 + j] as int;
                        assert(types_of(self.types)[ti] == types_before[ti]);
                    }
                }
            }
            m = m + 1;
        }
        proof {
            assert forall|j: int| 0 <= j < (hi - lo) as int implies {
                let st = header_entry(*ty_def, table.method_def@[lo + j], heap);
                &&& (#[trigger] exports_of(self.exports)[e0 + j]).0 == st.0
                &&& functions_of(self.functions)[f0 + j] < types_of(self.types).len()
                &&& types_of(self.types)[functions_of(self.functions)[f0 + j] as int]
                    == lower_sig(st.1)->0
            } by {
                assert(self.method_cache@[start + j].0 == MethodDefIndex((lo + j + 1) as u32));
            }
        }
        Ok(())
    }

}

impl WasmContext {
    /// Phase 2 for member reference `k`, stated over its import step.
    #[verifier::spinoff_prover]
    fn member_ref_row(&mut self, k: usize, table: &MetadataTable, heap: Heap) -> (r: Result<(), Error>)
        requires
            old(self).wf(),
            old(self).method_cache@.len() == 0,
            k < table.member_ref@.len(),
            k < u32::MAX,
        ensures
            final(self).wf(),
            final(self).method_cache@.len() == 0,
            final(self).string_cache@ == old(self).string_cache@,
            final(self).data == old(self).data,
            final(self).memory == old(self).memory,
            final(self).codes == old(self).codes,
            final(self).functions == old(self).functions,
            final(self).exports == old(self).exports,
            grows(types_of(old(self).types), types_of(final(self).types), 1),
            r is Err ==> final(self).member_ref_cache@ == old(self).member_ref_cache@
                && final(self).imports == old(self).imports,
            !old(self).full() ==> match member_ref_step(table.member_ref@[k as int], table, heap) {
                Err(e) => r == Err::<(), Error>(e),
                Ok(_) => r is Ok,
            },
            r is Ok ==> member_ref_step(table.member_ref@[k as int], table, heap) is Ok,
            r is Ok ==> {
                let st = member_ref_step(table.member_ref@[k as int], table, heap)->Ok_0;
                let im = imports_of(final(self).imports).last();
                &&& imports_of(final(self).imports) == imports_of(old(self).imports).push(im)
                &&& im.0 == "env"@
                &&& im.1 == st.1
                &&& im.2 < types_of(final(self).types).len()
                &&& types_of(final(self).types)[im.2 as int] == lower_sig(st.0)->0
                &&& final(self).member_ref_cache@ == old(self).member_ref_cache@.push(
                    (
                        MemberRefIndex((k + 1) as u32),
                        MemberRefCacheData { fn_index: imports_of(old(self).imports).len() as u32 },
                    ),
                )
            },
    {
        self.emit_wasm_member_ref(MemberRefIndex((k + 1) as u32), &table.member_ref[k], table, heap)
    }

    /// Phase 2: imports every member reference, in table order.
    #[verifier::rlimit(100)]
    #[verifier::spinoff_prover]
    pub fn emit_member_refs(&mut self, table: &MetadataTable, heap: Heap) -> (r: Result<(), Error>)
        requires
            old(self).wf(),
            old(self).method_cache@.len() == 0,
            old(self).member_ref_cache@.len() == 0,
        ensures
            final(self).wf(),
            final(self).method_cache@.len() == 0,
            final(self).string_cache@ == old(self).string_cache@,
            final(self).data == old(self).data,
            final(self).memory == old(self).memory,
            final(self).codes == old(self).codes,
            final(self).functions == old(self).functions,
            final(self).exports == old(self).exports,
            grows(types_of(old(self).types), types_of(final(self).types), table.member_ref@.len() as int),
            old(self).room(table.member_ref@.len() as int) && table.member_ref@.len() < u32::MAX
                ==> match member_refs_error(table, heap, table.member_ref@.len() as int) {
                Some(e) => r == Err::<(), Error>(e),
                None => r is Ok,
            },
            r is Ok ==> member_refs_error(table, heap, table.member_ref@.len() as int) is None,
            r is Ok ==> final(self).member_ref_cache@.len() == table.member_ref@.len(),
            r is Ok ==> forall|k: int|
                0 <= k < table.member_ref@.len() ==> (#[trigger] final(self).member_ref_cache@[k]).0
                    == MemberRefIndex((k + 1) as u32),
            r is Ok ==> imports_of(final(self).imports).len() == table.member_ref@.len(),
            r is Ok ==> forall|k: int|
                0 <= k < table.member_ref@.len() ==> {
                    let im = #[trigger] imports_of(final(self).imports)[k];
                    let st = member_ref_step(table.member_ref@[k], table, heap)->Ok_0;
                    &&& im.0 == "env"@
                    &&& im.1 == st.1
                    &&& types_of(final(self).types)[im.2 as int] == lower_sig(st.0)->0
                },
    {
        let mut k: usize = 0;
        assert(imports_of(old(self).imports).len() == old(self).member_ref_cache@.len());
        while k < table.member_ref.len()
            invariant
                k <= table.member_ref@.len(),
                self.wf(),
                self.method_cache@.len() == 0,
                self.string_cache@ == old(self).string_cache@,
                self.data == old(self).data,
                self.memory == old(self).memory,
                self.codes == old(self).codes,
                self.functions == old(self).functions,
                self.exports == old(self).exports,
                self.member_ref_cache@.len() == k,
                imports_of(self.imports).len() == k,
                old(self).member_ref_cache@.len() == 0,
                grows(types_of(old(self).types), types_of(self.types), k as int),
                member_refs_error(table, heap, k as int) is None,
                forall|j: int|
                    0 <= j < k ==> (#[trigger] self.member_ref_cache@[j]).0 == MemberRefIndex(
                        (j + 1) as u32,
                    ),
                forall|j: int|
                    0 <= j < k ==> {
                        let im = #[trigger] imports_of(self.imports)[j];
                        let st = member_ref_step(table.member_ref@[j], table, heap)->Ok_0;
                        &&& im.0 == "env"@
                        &&& im.1 == st.1
                        &&& im.2 < types_of(self.types).len()
                        &&& types_of(self.types)[im.2 as int] == lower_sig(st.0)->0
                    },
            decreases table.member_ref@.len() - k,
        {
            if k >= u32::MAX as usize {
                return Err(Error::BadIndex);
            }
            let ghost before = self.member_ref_cache@;
            let ghost imports_before = imports_of(self.imports);
            let ghost types_before = types_of(self.types);
            proof {
                if old(self).room(table.member_ref@.len() as int) {
                    assert(!self.full());
                }
            }
            match self.member_ref_row(k, table, heap) {
                Ok(()) => {},
                Err(e) => {
                    proof {
                        if old(self).room(table.member_ref@.len() as int) {
                            assert(member_refs_error(table, heap, k + 1) == Some(e));
                            lemma_member_refs_error_stays(table, heap, k + 1, table.member_ref@.len() as int);
                        }
                    }
                    return Err(e);
                },
            }
            proof {
                assert(self.member_ref_cache@ == before.push(self.member_ref_cache@.last()));
                assert(member_ref_step(table.member_ref@[k as int], table, heap) is Ok);
                assert(member_refs_error(table, heap, k + 1) is None);
                assert forall|j: int| 0 <= j <= k implies {
                    let im = #[trigger] imports_of(self.imports)[j];
                    let st = member_ref_step(table.member_ref@[j], table, heap)->Ok_0;
                    &&& im.0 == "env"@
                    &&& im.1 == st.1
                    &&& im.2 < types_of(self.types).len()
                    &&& types_of(self.types)[im.2 as int] == lower_sig(st.0)->0
                } by {
                    if j < k {
                        assert(imports_of(self.imports)[j] == imports_before[j]);
                        let im = imports_before[j];
                        assert(types_of(self.types)[im.2 as int] == types_before[im.2 as int]);
                    }
                }
            }
            k = k + 1;
        }
        Ok(())
    }

    /// Phase 3: declares and exports the methods of every type, in table order.
    pub fn emit_type_headers(&mut self, table: &MetadataTable, heap: Heap) -> (r: Result<(), Error>)
        requires
            old(self).wf(),
        ensures
            final(self).wf(),
            final(self).imports == old(self).imports,
            final(self).member_ref_cache@ == old(self).member_ref_cache@,
            final(self).string_cache@ == old(self).string_cache@,
            final(self).data == old(self).data,
            final(self).memory == old(self).memory,
            final(self).codes == old(self).codes,
    {
        let mut t: usize = 0;
        while t < table.type_def.len()
            invariant
                t <= table.type_def@.len(),
                self.wf(),
                self.imports == old(self).imports,
                self.member_ref_cache@ == old(self).member_ref_cache@,
                self.string_cache@ == old(self).string_cache@,
                self.data == old(self).data,
                self.memory == old(self).memory,
                self.codes == old(self).codes,
            decreases table.type_def@.len() - t,
        {
            if t >= u32::MAX as usize {
                return Err(Error::BadIndex);
            }
            self.emit_wasm_type_header(TypeDefIndex((t + 1) as u32), &table.type_def[t], table, heap)?;
            t = t + 1;
        }
        Ok(())
    }

    /// Phase 4 for method-definition row `k + 1`, stated over its code step.
    #[verifier::spinoff_prover]
    fn body_row(&mut self, k: usize, table: &MetadataTable, heap: Heap, body: &MethodBody) -> (r: Result<(), Error>)
        requires
            old(self).wf(),
            k < table.method_def@.len(),
        ensures
            final(self).wf(),
            final(self).same_but_types_codes(old(self)),
            grows(types_of(old(self).types), types_of(final(self).types), 1),
            r is Ok ==> body_step(
                heap,
                table.method_def@[k as int],
                body.instructions@,
                old(self).string_cache@,
                old(self).method_cache@,
                old(self).member_ref_cache@,
            ) is Ok,
            old(self).room(1) ==> match body_step(
                heap,
                table.method_def@[k as int],
                body.instructions@,
                old(self).string_cache@,
                old(self).method_cache@,
                old(self).member_ref_cache@,
            ) {
                Err(e) => r == Err::<(), Error>(e),
                Ok(_) => r is Ok,
            },
            r is Ok ==> codes_of(final(self).codes) == codes_of(old(self).codes).push(
                body_step(
                    heap,
                    table.method_def@[k as int],
                    body.instructions@,
                    old(self).string_cache@,
                    old(self).method_cache@,
                    old(self).member_ref_cache@,
                )->Ok_0,
            ),
    {
        let sig = method_sig(heap, table.method_def[k].signature)?;
        let (_, params) = self.wasm_method_sig(sig)?;
        self.emit_wasm_function_body(body, &params)
    }

    /// Phase 4: lowers the body of every method definition, in table order;
    /// `bodies[k]` is the body of row `k + 1`.
    #[verifier::rlimit(100)]
    #[verifier::spinoff_prover]
    pub fn emit_bodies(&mut self, table: &MetadataTable, heap: Heap, bodies: &Vec<MethodBody>) -> (r: Result<(), Error>)
        requires
            old(self).wf(),
            bodies@.len() == table.method_def@.len(),
        ensures
            final(self).wf(),
            final(self).same_but_types_codes(old(self)),
            old(self).room(bodies@.len() as int) ==> match bodies_error(
                table,
                heap,
                body_views(bodies@),
                old(self).string_cache@,
                old(self).method_cache@,
                old(self).member_ref_cache@,
                bodies@.len() as int,
            ) {
                Some(e) => r == Err::<(), Error>(e),
                None => r is Ok,
            },
            r is Ok ==> codes_of(final(self).codes) == codes_of(old(self).codes).add(
                bodies_code(
                    table,
                    heap,
                    body_views(bodies@),
                    old(self).string_cache@,
                    old(self).method_cache@,
                    old(self).member_ref_cache@,
                ),
            ),
    {
        let ghost bv = body_views(bodies@);
        let ghost c0 = codes_of(self.codes);
        let ghost full_code = bodies_code(table, heap, bv, self.string_cache@, self.method_cache@, self.member_ref_cache@);
        let mut k: usize = 0;
        assert(c0.add(full_code.subrange(0, 0)) =~= c0);
        while k < bodies.len()
            invariant
                k <= bodies@.len(),
                bodies@.len() == table.method_def@.len(),
                bv == body_views(bodies@),
                c0 == codes_of(old(self).codes),
                full_code == bodies_code(table, heap, bv, old(self).string_cache@, old(self).method_cache@, old(self).member_ref_cache@),
                self.wf(),
                self.same_but_types_codes(old(self)),
                grows(types_of(old(self).types), types_of(self.types), k as int),
                bodies_error(table, heap, bv, old(self).string_cache@, old(self).method_cache@, old(self).member_ref_cache@, k as int) is None,
                codes_of(self.codes) == c0.add(full_code.subrange(0, k as int)),
            decreases bodies@.len() - k,
        {
            proof {
                if old(self).room(bodies@.len() as int) {
                    assert(self.room(1));
                }
                assert(bv[k as int] == bodies@[k as int].instructions@);
            }
            let ghost pre = *self;
            match self.body_row(k, table, heap, &bodies[k]) {
                Ok(()) => {},
                Err(e) => {
                    proof {
                        if old(self).room(bodies@.len() as int) {
                            assert(bodies_error(table, heap, bv, old(self).string_cache@, old(self).method_cache@, old(self).member_ref_cache@, k + 1) == Some(e));
                            lemma_bodies_error_stays(table, heap, bv, old(self).string_cache@, old(self).method_cache@, old(self).member_ref_cache@, k + 1, bodies@.len() as int);
                        }
                    }
                    return Err(e);
                },
            }
            proof {
                assert(full_code[k as int] == body_step(heap, table.method_def@[k as int], bv[k as int], old(self).string_cache@, old(self).method_cache@, old(self).member_ref_cache@)->Ok_0);
                assert(full_code.subrange(0, k + 1) =~= full_code.subrange(0, k as int).push(full_code[k as int]));
                assert(c0.add(full_code.subrange(0, k + 1)) =~= c0.add(full_code.subrange(0, k as int)).push(full_code[k as int]));
                lemma_grows_trans(types_of(old(self).types), types_of(pre.types), types_of(self.types), k as int, 1);
            }
            k = k + 1;
        }
        assert(full_code.subrange(0, k as int) =~= full_code);
        Ok(())
    }
}

/// The number of methods that a type owns.
pub open spec fn span(ty_index: TypeDefIndex, table: &MetadataTable) -> int {
    ty_index.spec_method_range(table).1 - ty_index.spec_method_range(table).0
}

/// The instructions of each decoded body.
pub open spec fn body_views(b: Seq<MethodBody>) -> Seq<Seq<Instruction>> {
    b.map_values(|x: MethodBody| x.instructions@)
}

/// The code that phase 4 emits for a method: one local of each parameter
/// type, and the lowered body.
pub open spec fn body_step(
    heap: Heap,
    md: MethodDef,
    instrs: Seq<Instruction>,
    strings: Seq<(UserStringIndex, StringCacheData)>,
    methods: Seq<(MethodDefIndex, MethodCacheData)>,
    member_refs: Seq<(MemberRefIndex, MemberRefCacheData)>,
) -> Result<(Seq<ValTy>, Seq<WasmInstr>), Error> {
    match blob_sig(heap, md.signature) {
        Err(e) => Err(e),
        Ok(sv) => match lower_sig(sv) {
            None => Err(Error::UnsupportedSignature),
            Some(ft) => match lower_function(instrs, strings, methods, member_refs) {
                Err(e) => Err(e),
                Ok(v) => Ok((ft.0, v)),
            },
        },
    }
}

/// The first error of phase 4 among the first `k` bodies.
pub open spec fn bodies_error(
    table: &MetadataTable,
    heap: Heap,
    bodies: Seq<Seq<Instruction>>,
    strings: Seq<(UserStringIndex, StringCacheData)>,
    methods: Seq<(MethodDefIndex, MethodCacheData)>,
    member_refs: Seq<(MemberRefIndex, MemberRefCacheData)>,
    k: int,
) -> Option<Error>
    decreases k,
{
    if k <= 0 {
        None
    } else {
        match bodies_error(table, heap, bodies, strings, methods, member_refs, k - 1) {
            Some(e) => Some(e),
            None => match body_step(heap, table.method_def@[k - 1], bodies[k - 1], strings, methods, member_refs) {
                Err(e) => Some(e),
                Ok(_) => None,
            },
        }
    }
}

proof fn lemma_bodies_error_stays(
    table: &MetadataTable,
    heap: Heap,
    bodies: Seq<Seq<Instruction>>,
    strings: Seq<(UserStringIndex, StringCacheData)>,
    methods: Seq<(MethodDefIndex, MethodCacheData)>,
    member_refs: Seq<(MemberRefIndex, MemberRefCacheData)>,
    j: int,
    k: int,
)
    requires
        0 <= j <= k,
        bodies_error(table, heap, bodies, strings, methods, member_refs, j) is Some,
    ensures
        bodies_error(table, heap, bodies, strings, methods, member_refs, k) == bodies_error(
            table, heap, bodies, strings, methods, member_refs, j,
        ),
    decreases k - j,
{
    if j < k {
        lemma_bodies_error_stays(table, heap, bodies, strings, methods, member_refs, j, k - 1);
    }
}

/// The code of every body, when each lowers.
pub open spec fn bodies_code(
    table: &MetadataTable,
    heap: Heap,
    bodies: Seq<Seq<Instruction>>,
    strings: Seq<(UserStringIndex, StringCacheData)>,
    methods: Seq<(MethodDefIndex, MethodCacheData)>,
    member_refs: Seq<(MemberRefIndex, MemberRefCacheData)>,
) -> Seq<(Seq<ValTy>, Seq<WasmInstr>)> {
    Seq::new(
        bodies.len(),
        |k: int| body_step(heap, table.method_def@[k], bodies[k], strings, methods, member_refs)->Ok_0,
    )
}

pub proof fn lemma_grows_trans<T>(a: Seq<T>, b: Seq<T>, c: Seq<T>, n: int, m: int)
    requires
        grows(a, b, n),
        grows(b, c, m),
    ensures
        grows(a, c, n + m),
{
    assert forall|j: int| 0 <= j < a.len() implies #[trigger] c[j] == a[j] by {
        assert(c[j] == b[j]);
    }
}

/// Each interned method has the function index `import_count + k`, where
/// `k` is its position in the order of phase 3, and is exported under it.
pub proof fn lemma_method_indices(c: WasmContext)
    requires
        c.wf(),
    ensures
        forall|k: int|
            0 <= k < c.method_cache@.len() ==> (#[trigger] c.method_cache@[k]).1.fn_index
                == imports_of(c.imports).len() + k && exports_of(c.exports)[k].1
                == c.method_cache@[k].1.fn_index,
{
}

/// Each imported member reference has a function index below the import
/// count, equal to the number of imports made before it.
pub proof fn lemma_import_indices(c: WasmContext)
    requires
        c.wf(),
    ensures
        forall|k: int|
            0 <= k < c.member_ref_cache@.len() ==> (#[trigger] c.member_ref_cache@[k]).1.fn_index
                == k && c.member_ref_cache@[k].1.fn_index < imports_of(c.imports).len(),
{
}

/// The module that a finished engine state encodes.
pub open spec fn module_of(c: WasmContext) -> Seq<u8> {
    module_bytes(
        types_of(c.types),
        imports_of(c.imports),
        functions_of(c.functions),
        memories_of(c.memory),
        exports_of(c.exports),
        codes_of(c.codes),
        data_of(c.data),
    )
}

/// Runs the four phases on a decoded metadata root, with `bodies[k]` the
/// decoded body of method-definition row `k + 1`, and encodes the module.
pub fn compile_metadata(root: &MetadataRoot, bodies: &Vec<MethodBody>) -> (r: Result<Vec<u8>, Error>)
    ensures
        bodies@.len() != root.metadata_stream.table.method_def@.len() ==> r == Err::<Vec<u8>, Error>(
            Error::BadInput,
        ),
        bodies@.len() == root.metadata_stream.table.method_def@.len() ==> (user_string_offsets(
            root.heap.user_strings@,
        ) matches Err(e) ==> r == Err::<Vec<u8>, Error>(e)),
        r matches Ok(b) ==> exists|c: WasmContext|
            {
                &&& c.wf()
                &&& c.strings_placed(root.heap.user_strings@)
                &&& memories_of(c.memory) == seq![(1u64, None::<u64>)]
                &&& c.member_ref_cache@.len() == root.metadata_stream.table.member_ref@.len()
                &&& codes_of(c.codes).len() == bodies@.len()
                &&& b@ == module_of(c)
            },
{
    let table = &root.metadata_stream.table;
    if bodies.len() != table.method_def.len() {
        return Err(Error::BadInput);
    }
    let mut ctx = WasmContext::new(root)?;
    ctx.emit_member_refs(table, root.heap)?;
    ctx.emit_type_headers(table, root.heap)?;
    ctx.emit_bodies(table, root.heap, bodies)?;
    let b = ctx.finish();
    assert(ctx.strings_placed(root.heap.user_strings@));
    Ok(b)
}

/// Compiles an image: decodes the body of every method definition at its
/// RVA, then lowers the metadata to a module.
pub fn compile(image: &Image) -> (r: Result<Vec<u8>, Error>)
    ensures
        r matches Ok(b) ==> exists|c: WasmContext|
            {
                &&& c.wf()
                &&& c.strings_placed(image.spec_metadata_root().heap.user_strings@)
                &&& memories_of(c.memory) == seq![(1u64, None::<u64>)]
                &&& c.member_ref_cache@.len()
                    == image.spec_metadata_root().metadata_stream.table.member_ref@.len()
                &&& b@ == module_of(c)
            },
{
    let root = image.metadata_root();
    let table = &root.metadata_stream.table;
    let mut bodies: Vec<MethodBody> = Vec::new();
    let mut k: usize = 0;
    while k < table.method_def.len()
        invariant
            k <= table.method_def@.len(),
            bodies@.len() == k,
        decreases table.method_def@.len() - k,
    {
        bodies.push(table.method_def[k].resolve_body(image)?);
        k = k + 1;
    }
    compile_metadata(root, &bodies)
}

} // verus!
