//! The parts of WebAssembly that validation accepts.

use crate::error::{error_at, word_error_at, BinaryReaderError, Result};
use crate::reader::operators::Feature;
use crate::reader::types::Type;
use vstd::prelude::*;

verus! {

/// Flags for features that are enabled for validation.
#[derive(Hash, Debug, Copy, Clone)]
pub struct WasmFeatures {
    /// The WebAssembly `mutable-global` proposal (enabled by default)
    pub mutable_global: bool,
    /// The WebAssembly `nontrapping-float-to-int-conversions` proposal (enabled by default)
    pub saturating_float_to_int: bool,
    /// The WebAssembly `sign-extension-ops` proposal (enabled by default)
    pub sign_extension: bool,
    /// The WebAssembly reference types proposal (enabled by default)
    pub reference_types: bool,
    /// The WebAssembly multi-value proposal (enabled by default)
    pub multi_value: bool,
    /// The WebAssembly bulk memory operations proposal (enabled by default)
    pub bulk_memory: bool,
    /// The WebAssembly SIMD proposal (enabled by default)
    pub simd: bool,
    /// The WebAssembly Relaxed SIMD proposal
    pub relaxed_simd: bool,
    /// The WebAssembly threads proposal
    pub threads: bool,
    /// The WebAssembly tail-call proposal
    pub tail_call: bool,
    /// Whether or not only deterministic instructions are allowed
    pub deterministic_only: bool,
    /// The WebAssembly multi memory proposal
    pub multi_memory: bool,
    /// The WebAssembly exception handling proposal
    pub exceptions: bool,
    /// The WebAssembly memory64 proposal
    pub memory64: bool,
    /// The WebAssembly extended_const proposal
    pub extended_const: bool,
    /// The WebAssembly component model proposal.
    pub component_model: bool,
}

/// The features that are enabled where nothing else is asked for.
pub open spec fn default_features() -> WasmFeatures {
    WasmFeatures {
        mutable_global: true,
        saturating_float_to_int: true,
        sign_extension: true,
        reference_types: true,
        multi_value: true,
        bulk_memory: true,
        simd: true,
        relaxed_simd: false,
        threads: false,
        tail_call: false,
        deterministic_only: false,
        multi_memory: false,
        exceptions: false,
        memory64: false,
        extended_const: false,
        component_model: false,
    }
}

impl Default for WasmFeatures {
    fn default() -> (features: WasmFeatures)
        ensures
            features == default_features(),
    {
        WasmFeatures {
            // off-by-default features
            relaxed_simd: false,
            threads: false,
            tail_call: false,
            multi_memory: false,
            exceptions: false,
            memory64: false,
            extended_const: false,
            component_model: false,
            deterministic_only: false,
            // on-by-default features
            mutable_global: true,
            saturating_float_to_int: true,
            sign_extension: true,
            bulk_memory: true,
            multi_value: true,
            reference_types: true,
            simd: true,
        }
    }
}

impl WasmFeatures {
    /// Why values of a type are refused, if they are.
    pub open spec fn value_type(self, ty: Type) -> core::result::Result<(), &'static str> {
        if ty.reference() && !self.reference_types {
            Err("reference types support is not enabled")
        } else if ty == Type::V128 && !self.simd {
            Err("SIMD support is not enabled")
        } else {
            Ok(())
        }
    }

    /// Checks that values of a type are enabled.
    pub fn check_value_type(&self, ty: Type) -> (result: core::result::Result<(), &'static str>)
        ensures
            result == self.value_type(ty),
    {
        match ty {
            Type::I32 | Type::I64 | Type::F32 | Type::F64 => Ok(()),
            Type::FuncRef | Type::ExternRef => {
                if self.reference_types {
                    Ok(())
                } else {
                    Err("reference types support is not enabled")
                }
            },
            Type::V128 => {
                if self.simd {
                    Ok(())
                } else {
                    Err("SIMD support is not enabled")
                }
            },
        }
    }

    /// The error for a value type that is refused, if it is.
    pub open spec fn value_type_at(self, ty: Type, offset: int) -> Result<()> {
        match self.value_type(ty) {
            Ok(_) => Ok(()),
            Err(text) => Err(error_at(text, offset)),
        }
    }

    /// Checks that values of a type are enabled, and gives the error at an offset.
    pub fn check_value_type_at(&self, ty: Type, offset: usize) -> (result: Result<()>)
        ensures
            result == self.value_type_at(ty, offset as int),
    {
        match self.check_value_type(ty) {
            Ok(()) => Ok(()),
            Err(text) => Err(BinaryReaderError::new(text, offset)),
        }
    }

    /// The first error for value types that are refused, if one is.
    pub open spec fn value_types_at(self, types: Seq<Type>, offset: int) -> Result<()>
        decreases types.len(),
    {
        if types.len() == 0 {
            Ok(())
        } else {
            match self.value_type_at(types[0], offset) {
                Ok(_) => self.value_types_at(types.drop_first(), offset),
                Err(e) => Err(e),
            }
        }
    }

    /// Checks that values of all of these types are enabled.
    pub fn check_value_types_at(&self, types: &[Type], offset: usize) -> (result: Result<()>)
        ensures
            result == self.value_types_at(types@, offset as int),
    {
        let mut i: usize = 0;
        assert(types@.skip(0) =~= types@);
        while i < types.len()
            invariant
                i <= types@.len(),
                self.value_types_at(types@, offset as int) == self.value_types_at(
                    types@.skip(i as int),
                    offset as int,
                ),
            decreases types@.len() - i,
        {
            assert(types@.skip(i as int).drop_first() =~= types@.skip(i + 1));
            self.check_value_type_at(types[i], offset)?;
            i = i + 1;
        }
        Ok(())
    }

    /// The error for a feature that is not enabled, if it is not.
    pub open spec fn feature_at(self, feature: Feature, offset: int) -> Result<()> {
        match feature {
            Feature::Mvp => Ok(()),
            Feature::SaturatingFloatToInt => enabled(
                self.saturating_float_to_int,
                "saturating float to int conversions",
                offset,
            ),
            Feature::SignExtension => enabled(
                self.sign_extension,
                "sign extension operations",
                offset,
            ),
            Feature::Simd => enabled(self.simd, "SIMD", offset),
            Feature::RelaxedSimd => enabled(self.relaxed_simd, "Relaxed SIMD", offset),
            Feature::Threads => enabled(self.threads, "threads", offset),
        }
    }

    /// Checks that a feature is enabled.
    pub fn check_feature(&self, feature: Feature, offset: usize) -> (result: Result<()>)
        ensures
            result == self.feature_at(feature, offset as int),
    {
        match feature {
            Feature::Mvp => Ok(()),
            Feature::SaturatingFloatToInt => check_enabled(
                self.saturating_float_to_int,
                "saturating float to int conversions",
                offset,
            ),
            Feature::SignExtension => check_enabled(
                self.sign_extension,
                "sign extension operations",
                offset,
            ),
            Feature::Simd => check_enabled(self.simd, "SIMD", offset),
            Feature::RelaxedSimd => check_enabled(self.relaxed_simd, "Relaxed SIMD", offset),
            Feature::Threads => check_enabled(self.threads, "threads", offset),
        }
    }
}

/// The error for something that is not enabled, if it is not.
pub open spec fn enabled(flag: bool, what: &'static str, offset: int) -> Result<()> {
    if flag {
        Ok(())
    } else {
        Err(word_error_at("", what, " support is not enabled", offset))
    }
}

/// Checks that something is enabled.
pub fn check_enabled(flag: bool, what: &'static str, offset: usize) -> (result: Result<()>)
    ensures
        result == enabled(flag, what, offset as int),
{
    if flag {
        Ok(())
    } else {
        Err(BinaryReaderError::with_word("", what, " support is not enabled", offset))
    }
}

} // verus!
