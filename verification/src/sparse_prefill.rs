//! Sparse prefill parameters.

use crate::arch::Arch;
use crate::convert::checked_i32;
use crate::convert::checked_stride;
use crate::convert::i32_error;
use crate::convert::is_stride;
use crate::convert::stride_error;
use crate::error::call_error;
use crate::error::failure;
use crate::error::first;
use crate::error::invalid;
use crate::error::message_of;
use crate::error::Error;
use crate::error::ErrorModel;
use crate::sys::cudaStream_t;
use crate::sys::flashmla_sparse_prefill_params_t;
use crate::sys::flashmla_status_t;
use crate::sys::DevicePtr;
use crate::text::decimal;
use crate::text::labelled;
use crate::text::number;
use vstd::prelude::*;
use vstd::string::StringExecFns;

verus! {

/// Runtime options for sparse prefill.
#[derive(Debug, Copy, Clone, PartialEq, Eq)]
pub struct SparsePrefillConfig {
    /// IEEE 754 single-precision bits of the softmax scale applied to QK logits.
    pub softmax_scale_bits: u32,
    /// Value head dimension. FlashMLA sparse MLA currently requires `512`.
    pub d_v: usize,
    /// Whether higher-level integrations should pad query heads before launch.
    pub pad_heads: bool,
}

impl Default for SparsePrefillConfig {
    fn default() -> (config: SparsePrefillConfig)
        ensures
            config.softmax_scale_bits == 0x3f80_0000,
            config.d_v == 512,
            config.pad_heads,
    {
        SparsePrefillConfig { softmax_scale_bits: 0x3f80_0000, d_v: 512, pad_heads: true }
    }
}

/// Shape parameters for sparse prefill.
#[derive(Debug, Copy, Clone, PartialEq, Eq)]
pub struct SparsePrefillDims {
    /// Query sequence length.
    pub s_q: usize,
    /// KV sequence length.
    pub s_kv: usize,
    /// Query head count after any required padding.
    pub h_q: usize,
    /// KV head count. Sparse MLA currently expects MQA-style `1`.
    pub h_kv: usize,
    /// Query/key head dimension. FlashMLA supports `512` and `576`.
    pub d_qk: usize,
    /// Value head dimension. FlashMLA sparse MLA currently requires `512`.
    pub d_v: usize,
    /// Number of sparse KV indices per query.
    pub topk: usize,
}

impl SparsePrefillDims {
    /// Whether the kernels support this shape, whatever the architecture.
    pub open spec fn supported(self) -> bool {
        &&& self.s_q > 0
        &&& self.s_kv > 0
        &&& self.topk > 0
        &&& self.d_qk == 512 || self.d_qk == 576
        &&& self.d_v == 512
        &&& self.h_q == 64 || self.h_q == 128
        &&& self.h_kv == 1
    }

    /// Whether the kernels for `arch` support this shape.
    pub open spec fn supported_on(self, arch: Arch) -> bool {
        &&& self.supported()
        &&& arch == Arch::Sm90a ==> self.topk % 128 == 0
    }

    /// The first architecture-independent constraint that this shape violates.
    pub open spec fn shape_error(self) -> Option<ErrorModel> {
        if self.s_q == 0 || self.s_kv == 0 || self.topk == 0 {
            invalid("s_q, s_kv, and topk must be non-zero"@)
        } else if self.d_qk != 512 && self.d_qk != 576 {
            invalid("d_qk must be 512 or 576, got "@ + decimal(self.d_qk as nat))
        } else if self.d_v != 512 {
            invalid("d_v must be 512, got "@ + decimal(self.d_v as nat))
        } else if self.h_q != 64 && self.h_q != 128 {
            invalid("h_q must be padded to 64 or 128, got "@ + decimal(self.h_q as nat))
        } else if self.h_kv != 1 {
            invalid("h_kv must be 1 for sparse MLA, got "@ + decimal(self.h_kv as nat))
        } else {
            None
        }
    }

    /// The constraint of SM90 on the number of sparse indices, if this shape violates it.
    pub open spec fn sm90_topk_error(self) -> Option<ErrorModel> {
        if self.topk % 128 != 0 {
            invalid(
                "SM90 sparse prefill requires topk to be a multiple of 128, got "@ + decimal(
                    self.topk as nat,
                ),
            )
        } else {
            None
        }
    }

    /// The first constraint of `arch` that this shape violates.
    pub open spec fn arch_error(self, arch: Arch) -> Option<ErrorModel> {
        first(
            self.shape_error(),
            match arch {
                Arch::Sm90a => self.sm90_topk_error(),
                Arch::Sm100f => None,
            },
        )
    }

    /// Validates architecture-independent sparse prefill shape constraints.
    pub fn validate(self) -> (r: Result<(), Error>)
        ensures
            failure(r) == self.shape_error(),
            r is Ok <==> self.supported(),
    {
        if self.s_q == 0 || self.s_kv == 0 || self.topk == 0 {
            return Err(
                Error::InvalidArgument(String::from_str("s_q, s_kv, and topk must be non-zero")),
            );
        }
        if self.d_qk != 512 && self.d_qk != 576 {
            return Err(
                Error::InvalidArgument(
                    labelled("d_qk must be 512 or 576, got ", number(self.d_qk).as_str()),
                ),
            );
        }
        if self.d_v != 512 {
            return Err(
                Error::InvalidArgument(
                    labelled("d_v must be 512, got ", number(self.d_v).as_str()),
                ),
            );
        }
        if self.h_q != 64 && self.h_q != 128 {
            return Err(
                Error::InvalidArgument(
                    labelled("h_q must be padded to 64 or 128, got ", number(self.h_q).as_str()),
                ),
            );
        }
        if self.h_kv != 1 {
            return Err(
                Error::InvalidArgument(
                    labelled("h_kv must be 1 for sparse MLA, got ", number(self.h_kv).as_str()),
                ),
            );
        }
        Ok(())
    }

    /// Validates the shape constraints of the SM90 kernels.
    pub fn validate_sm90(self) -> (r: Result<(), Error>)
        ensures
            failure(r) == self.arch_error(Arch::Sm90a),
            r is Ok <==> self.supported_on(Arch::Sm90a),
    {
        self.validate()?;
        if self.topk % 128 != 0 {
            return Err(
                Error::InvalidArgument(
                    labelled(
                        "SM90 sparse prefill requires topk to be a multiple of 128, got ",
                        number(self.topk).as_str(),
                    ),
                ),
            );
        }
        Ok(())
    }

    /// Validates the shape constraints of the kernels for `arch`.
    pub fn validate_for_arch(self, arch: Arch) -> (r: Result<(), Error>)
        ensures
            failure(r) == self.arch_error(arch),
            r is Ok <==> self.supported_on(arch),
    {
        match arch {
            Arch::Sm90a => self.validate_sm90(),
            Arch::Sm100f => self.validate(),
        }
    }
}

/// Element strides for raw sparse prefill tensors.
#[derive(Debug, Copy, Clone, PartialEq, Eq)]
pub struct SparsePrefillStrides {
    /// Element stride between query sequence positions.
    pub q_s_q: usize,
    /// Element stride between query heads.
    pub q_h_q: usize,
    /// Element stride between KV sequence positions.
    pub kv_s_kv: usize,
    /// Element stride between KV heads.
    pub kv_h_kv: usize,
    /// Element stride between sparse-index query positions.
    pub indices_s_q: usize,
    /// Element stride between sparse-index KV heads.
    pub indices_h_kv: usize,
}

impl SparsePrefillStrides {
    /// Whether every stride is positive and fits in the C ABI.
    pub open spec fn valid(self) -> bool {
        &&& is_stride(self.q_s_q)
        &&& is_stride(self.q_h_q)
        &&& is_stride(self.kv_s_kv)
        &&& is_stride(self.kv_h_kv)
        &&& is_stride(self.indices_s_q)
        &&& is_stride(self.indices_h_kv)
    }

    /// The first stride that is not usable.
    pub open spec fn error(self) -> Option<ErrorModel> {
        first(stride_error(self.q_s_q, "q_s_q"@),
        first(stride_error(self.q_h_q, "q_h_q"@),
        first(stride_error(self.kv_s_kv, "kv_s_kv"@),
        first(stride_error(self.kv_h_kv, "kv_h_kv"@),
        first(stride_error(self.indices_s_q, "indices_s_q"@),
            stride_error(self.indices_h_kv, "indices_h_kv"@))))))
    }

    /// Validates that all raw tensor strides are positive and fit in the C ABI.
    pub fn validate(self) -> (r: Result<(), Error>)
        ensures
            failure(r) == self.error(),
            r is Ok <==> self.valid(),
    {
        checked_stride(self.q_s_q, "q_s_q")?;
        checked_stride(self.q_h_q, "q_h_q")?;
        checked_stride(self.kv_s_kv, "kv_s_kv")?;
        checked_stride(self.kv_h_kv, "kv_h_kv")?;
        checked_stride(self.indices_s_q, "indices_s_q")?;
        checked_stride(self.indices_h_kv, "indices_h_kv")?;
        Ok(())
    }
}

/// Parameters for launching BF16 sparse prefill.
#[derive(Debug, Copy, Clone, PartialEq, Eq)]
pub struct SparsePrefillLaunchParams {
    /// Sparse prefill tensor dimensions.
    pub dims: SparsePrefillDims,
    /// Sparse prefill runtime options.
    pub config: SparsePrefillConfig,
    /// Raw BF16 query pointer with shape `[s_q, h_q, d_qk]`.
    pub q: DevicePtr,
    /// Raw BF16 KV pointer with shape `[s_kv, h_kv, d_qk]`.
    pub kv: DevicePtr,
    /// Raw I32 sparse index pointer with shape `[s_q, h_kv, topk]`.
    pub indices: DevicePtr,
    /// Optional raw F32 attention sink pointer with shape `[h_q]`.
    pub attn_sink: DevicePtr,
    /// Optional raw I32 top-k length pointer with shape `[s_q]`.
    pub topk_length: DevicePtr,
    /// Element strides for `q`, `kv`, and `indices`.
    pub strides: SparsePrefillStrides,
    /// Raw BF16 output pointer with shape `[s_q, h_q, d_v]`.
    pub out: DevicePtr,
    /// Raw F32 max-logits output pointer with shape `[s_q, h_q]`.
    pub max_logits: DevicePtr,
    /// Raw F32 log-sum-exp output pointer with shape `[s_q, h_q]`.
    pub lse: DevicePtr,
    /// Number of SMs to pass to the upstream kernel.
    pub num_sm: usize,
    /// CUDA stream used for the kernel launch.
    pub stream: cudaStream_t,
}

impl SparsePrefillLaunchParams {
    /// Whether every pointer that a launch needs is given.
    pub open spec fn has_pointers(self) -> bool {
        &&& !self.q.is_null()
        &&& !self.kv.is_null()
        &&& !self.indices.is_null()
        &&& !self.out.is_null()
        &&& !self.max_logits.is_null()
        &&& !self.lse.is_null()
    }

    /// Whether the kernels for `arch` can be launched with these parameters.
    pub open spec fn valid(self, arch: Arch) -> bool {
        &&& self.dims.supported_on(arch)
        &&& self.strides.valid()
        &&& self.config.d_v == self.dims.d_v
        &&& self.has_pointers()
        &&& self.num_sm > 0
    }

    /// The first launch constraint that these parameters violate.
    pub open spec fn error(self, arch: Arch) -> Option<ErrorModel> {
        first(
            self.dims.arch_error(arch),
            first(
                self.strides.error(),
                if self.config.d_v != self.dims.d_v {
                    invalid(
                        "config d_v ("@ + decimal(self.config.d_v as nat)
                            + ") must match dims d_v ("@ + decimal(self.dims.d_v as nat) + ")"@,
                    )
                } else if !self.has_pointers() {
                    invalid("q, kv, indices, out, max_logits, and lse pointers must be non-null"@)
                } else if self.num_sm == 0 {
                    invalid("num_sm must be non-zero"@)
                } else {
                    None
                },
            ),
        )
    }

    /// The first size that does not fit in the C ABI.
    pub open spec fn size_error(self) -> Option<ErrorModel> {
        first(i32_error(self.dims.s_q, "s_q"@),
        first(i32_error(self.dims.s_kv, "s_kv"@),
        first(i32_error(self.dims.topk, "topk"@),
            i32_error(self.num_sm, "num_sm"@))))
    }

    /// The C ABI parameter block of these parameters.
    pub open spec fn block(self) -> flashmla_sparse_prefill_params_t {
        flashmla_sparse_prefill_params_t {
            s_q: self.dims.s_q as i32,
            s_kv: self.dims.s_kv as i32,
            h_q: self.dims.h_q as i32,
            h_kv: self.dims.h_kv as i32,
            d_qk: self.dims.d_qk as i32,
            d_v: self.dims.d_v as i32,
            topk: self.dims.topk as i32,
            sm_scale_bits: self.config.softmax_scale_bits,
            q: self.q,
            kv: self.kv,
            indices: self.indices,
            attn_sink: self.attn_sink,
            topk_length: self.topk_length,
            stride_q_s_q: self.strides.q_s_q as i32,
            stride_q_h_q: self.strides.q_h_q as i32,
            stride_kv_s_kv: self.strides.kv_s_kv as i32,
            stride_kv_h_kv: self.strides.kv_h_kv as i32,
            stride_indices_s_q: self.strides.indices_s_q as i32,
            stride_indices_h_kv: self.strides.indices_h_kv as i32,
            out: self.out,
            max_logits: self.max_logits,
            lse: self.lse,
            num_sm: self.num_sm as i32,
            stream: self.stream,
        }
    }

    /// Validates the parameters of a launch on `arch`.
    pub fn validate(self, arch: Arch) -> (r: Result<(), Error>)
        ensures
            failure(r) == self.error(arch),
            r is Ok <==> self.valid(arch),
    {
        self.dims.validate_for_arch(arch)?;
        self.strides.validate()?;
        if self.config.d_v != self.dims.d_v {
            return Err(
                Error::InvalidArgument(
                    labelled("config d_v (", number(self.config.d_v).as_str()).concat(
                        ") must match dims d_v (",
                    ).concat(number(self.dims.d_v).as_str()).concat(")"),
                ),
            );
        }
        if self.q.is_null() || self.kv.is_null() || self.indices.is_null() || self.out.is_null()
            || self.max_logits.is_null() || self.lse.is_null() {
            return Err(
                Error::InvalidArgument(
                    String::from_str(
                        "q, kv, indices, out, max_logits, and lse pointers must be non-null",
                    ),
                ),
            );
        }
        if self.num_sm == 0 {
            return Err(Error::InvalidArgument(String::from_str("num_sm must be non-zero")));
        }
        Ok(())
    }

    /// Builds the C ABI parameter block for a launch on `arch`.
    pub fn to_sys(self, arch: Arch) -> (r: Result<flashmla_sparse_prefill_params_t, Error>)
        ensures
            failure(r) == first(self.error(arch), self.size_error()),
            r is Ok ==> self.valid(arch),
            r matches Ok(block) ==> block == self.block(),
    {
        self.validate(arch)?;
        Ok(
            flashmla_sparse_prefill_params_t {
                s_q: checked_i32(self.dims.s_q, "s_q")?,
                s_kv: checked_i32(self.dims.s_kv, "s_kv")?,
                h_q: checked_i32(self.dims.h_q, "h_q")?,
                h_kv: checked_i32(self.dims.h_kv, "h_kv")?,
                d_qk: checked_i32(self.dims.d_qk, "d_qk")?,
                d_v: checked_i32(self.dims.d_v, "d_v")?,
                topk: checked_i32(self.dims.topk, "topk")?,
                sm_scale_bits: self.config.softmax_scale_bits,
                q: self.q,
                kv: self.kv,
                indices: self.indices,
                attn_sink: self.attn_sink,
                topk_length: self.topk_length,
                stride_q_s_q: checked_stride(self.strides.q_s_q, "q_s_q")?,
                stride_q_h_q: checked_stride(self.strides.q_h_q, "q_h_q")?,
                stride_kv_s_kv: checked_stride(self.strides.kv_s_kv, "kv_s_kv")?,
                stride_kv_h_kv: checked_stride(self.strides.kv_h_kv, "kv_h_kv")?,
                stride_indices_s_q: checked_stride(self.strides.indices_s_q, "indices_s_q")?,
                stride_indices_h_kv: checked_stride(self.strides.indices_h_kv, "indices_h_kv")?,
                out: self.out,
                max_logits: self.max_logits,
                lse: self.lse,
                num_sm: checked_i32(self.num_sm, "num_sm")?,
                stream: self.stream,
            },
        )
    }
}

/// Interprets the status of a sparse prefill launch.
pub fn sparse_prefill_outcome(status: flashmla_status_t, last_error: Option<String>) -> (r: Result<
    (),
    Error,
>)
    ensures
        failure(r) == call_error(status, "sparse prefill launch failed"@, message_of(last_error)),
{
    if status == flashmla_status_t::FLASHMLA_STATUS_SUCCESS {
        Ok(())
    } else {
        Err(
            Error::from_status(
                status,
                String::from_str("sparse prefill launch failed"),
                last_error,
            ),
        )
    }
}

/// The shapes that are accepted on every architecture: at least one query and KV position and
/// index, 64 or 128 query heads on a single KV head, and 512-wide values under 512- or 576-wide
/// keys. SM90 asks besides for a whole number of 128-token blocks of indices.
pub proof fn accepted_shapes(dims: SparsePrefillDims, arch: Arch)
    ensures
        dims.shape_error() is None <==> {
            &&& dims.s_q >= 1 && dims.s_kv >= 1 && dims.topk >= 1
            &&& dims.h_q == 64 || dims.h_q == 128
            &&& dims.h_kv == 1
            &&& dims.d_v == 512
            &&& dims.d_qk == 512 || dims.d_qk == 576
        },
        dims.arch_error(arch) is None <==> dims.shape_error() is None && (arch == Arch::Sm90a
            ==> dims.topk % 128 == 0),
        dims.shape_error() is Some ==> dims.arch_error(arch) == dims.shape_error(),
        dims.supported() <==> dims.shape_error() is None,
        dims.supported_on(arch) <==> dims.arch_error(arch) is None,
{
}

/// Launches that are accepted for `arch`: an accepted shape, positive strides that the C ABI can
/// hold, a value width that the configuration agrees with, every buffer that the kernels read or
/// write, and a multiprocessor.
pub proof fn accepted_launches(params: SparsePrefillLaunchParams, arch: Arch)
    ensures
        params.error(arch) is None <==> {
            let s = params.strides;
            &&& params.dims.arch_error(arch) is None
            &&& 1 <= s.q_s_q <= 0x7fff_ffff && 1 <= s.q_h_q <= 0x7fff_ffff
            &&& 1 <= s.kv_s_kv <= 0x7fff_ffff && 1 <= s.kv_h_kv <= 0x7fff_ffff
            &&& 1 <= s.indices_s_q <= 0x7fff_ffff && 1 <= s.indices_h_kv <= 0x7fff_ffff
            &&& params.config.d_v == params.dims.d_v
            &&& params.q.addr != 0 && params.kv.addr != 0 && params.indices.addr != 0
            &&& params.out.addr != 0 && params.max_logits.addr != 0 && params.lse.addr != 0
            &&& params.num_sm >= 1
        },
        params.valid(arch) <==> params.error(arch) is None,
        params.size_error() is None <==> {
            &&& params.dims.s_q <= 0x7fff_ffff && params.dims.s_kv <= 0x7fff_ffff
            &&& params.dims.topk <= 0x7fff_ffff && params.num_sm <= 0x7fff_ffff
        },
{
}

/// The parameter block of a launch accepted for `arch` holds the very sizes, strides, softmax scale,
/// buffers and stream that were given, each in its role.
pub proof fn launch_blocks_are_exact(params: SparsePrefillLaunchParams, arch: Arch)
    requires
        params.error(arch) is None,
        params.size_error() is None,
    ensures
        params.block().s_q == params.dims.s_q,
        params.block().s_kv == params.dims.s_kv,
        params.block().h_q == params.dims.h_q,
        params.block().h_kv == params.dims.h_kv,
        params.block().d_qk == params.dims.d_qk,
        params.block().d_v == params.dims.d_v,
        params.block().topk == params.dims.topk,
        params.block().stride_q_s_q == params.strides.q_s_q,
        params.block().stride_q_h_q == params.strides.q_h_q,
        params.block().stride_kv_s_kv == params.strides.kv_s_kv,
        params.block().stride_kv_h_kv == params.strides.kv_h_kv,
        params.block().stride_indices_s_q == params.strides.indices_s_q,
        params.block().stride_indices_h_kv == params.strides.indices_h_kv,
        params.block().num_sm == params.num_sm,
        params.block().sm_scale_bits == params.config.softmax_scale_bits,
        params.block().q.addr == params.q.addr,
        params.block().kv.addr == params.kv.addr,
        params.block().indices.addr == params.indices.addr,
        params.block().attn_sink.addr == params.attn_sink.addr,
        params.block().topk_length.addr == params.topk_length.addr,
        params.block().out.addr == params.out.addr,
        params.block().max_logits.addr == params.max_logits.addr,
        params.block().lse.addr == params.lse.addr,
        params.block().stream.handle == params.stream.handle,
{
}

} // verus!
