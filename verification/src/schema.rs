//! Introspection for backend consumers: the result schema, the failure
//! code catalogue and the contract metadata.
use vstd::prelude::*;
use crate::symbol::Symbol;
use crate::env::ContractEnv;
use crate::{
    ContractMetadata, DeprecatedSymbol, FailureCode, FailureSchema, SLAError, SLAResultSchema,
    SLACalculatorContract, RESULT_SCHEMA_VERSION, STORAGE_VERSION,
};

verus! {

/// Number of failure codes.
pub const FAILURE_CODE_COUNT: u32 = 18;

/// Label of a failure code (its error's name); codes past 18 share the
/// label of 18.
#[verifier::allow_in_spec]
pub fn failure_label(code: u32) -> Symbol
    returns
        (if code == 1 {
            Symbol { w0: 0x416c726561647949, w1: 0x6e697469616c697a, w2: 0x6564000000000000, w3: 0 }
        } else if code == 2 {
            Symbol { w0: 0x4e6f74496e697469, w1: 0x616c697a65640000, w2: 0, w3: 0 }
        } else if code == 3 {
            Symbol { w0: 0x556e617574686f72, w1: 0x697a656400000000, w2: 0, w3: 0 }
        } else if code == 4 {
            Symbol { w0: 0x436f6e6669674e6f, w1: 0x74466f756e640000, w2: 0, w3: 0 }
        } else if code == 5 {
            Symbol { w0: 0x56657273696f6e4d, w1: 0x69736d6174636800, w2: 0, w3: 0 }
        } else if code == 6 {
            Symbol { w0: 0x436f6e7472616374, w1: 0x5061757365640000, w2: 0, w3: 0 }
        } else if code == 7 {
            Symbol { w0: 0x4e6f50656e64696e, w1: 0x675472616e736665, w2: 0x7200000000000000, w3: 0 }
        } else if code == 8 {
            Symbol { w0: 0x496e76616c696454, w1: 0x68726573686f6c64, w2: 0, w3: 0 }
        } else if code == 9 {
            Symbol { w0: 0x496e76616c696450, w1: 0x656e616c74790000, w2: 0, w3: 0 }
        } else if code == 10 {
            Symbol { w0: 0x496e76616c696452, w1: 0x6577617264000000, w2: 0, w3: 0 }
        } else if code == 11 {
            Symbol { w0: 0x496e76616c696453, w1: 0x6576657269747900, w2: 0, w3: 0 }
        } else if code == 12 {
            Symbol { w0: 0x526574656e74696f, w1: 0x6e4c696d69744f75, w2: 0x744f6652616e6765, w3: 0 }
        } else if code == 13 {
            Symbol { w0: 0x4475706c69636174, w1: 0x654f757461676549, w2: 0x6e70757400000000, w3: 0 }
        } else if code == 14 {
            Symbol { w0: 0x496e76616c696450, w1: 0x656e616c7479416d, w2: 0x6f756e7400000000, w3: 0 }
        } else if code == 15 {
            Symbol { w0: 0x496e76616c696452, w1: 0x6577617264416d6f, w2: 0x756e740000000000, w3: 0 }
        } else if code == 16 {
            Symbol { w0: 0x436f6e6669674672, w1: 0x6f7a656e00000000, w2: 0, w3: 0 }
        } else if code == 17 {
            Symbol { w0: 0x496e76616c696449, w1: 0x6e70757400000000, w2: 0, w3: 0 }
        } else {
            Symbol { w0: 0x5365766572697479, w1: 0x4e6f74496e536574, w2: 0, w3: 0 }
        }),
{
    if code == 1 {
        Symbol { w0: 0x416c726561647949, w1: 0x6e697469616c697a, w2: 0x6564000000000000, w3: 0 }
    } else if code == 2 {
        Symbol { w0: 0x4e6f74496e697469, w1: 0x616c697a65640000, w2: 0, w3: 0 }
    } else if code == 3 {
        Symbol { w0: 0x556e617574686f72, w1: 0x697a656400000000, w2: 0, w3: 0 }
    } else if code == 4 {
        Symbol { w0: 0x436f6e6669674e6f, w1: 0x74466f756e640000, w2: 0, w3: 0 }
    } else if code == 5 {
        Symbol { w0: 0x56657273696f6e4d, w1: 0x69736d6174636800, w2: 0, w3: 0 }
    } else if code == 6 {
        Symbol { w0: 0x436f6e7472616374, w1: 0x5061757365640000, w2: 0, w3: 0 }
    } else if code == 7 {
        Symbol { w0: 0x4e6f50656e64696e, w1: 0x675472616e736665, w2: 0x7200000000000000, w3: 0 }
    } else if code == 8 {
        Symbol { w0: 0x496e76616c696454, w1: 0x68726573686f6c64, w2: 0, w3: 0 }
    } else if code == 9 {
        Symbol { w0: 0x496e76616c696450, w1: 0x656e616c74790000, w2: 0, w3: 0 }
    } else if code == 10 {
        Symbol { w0: 0x496e76616c696452, w1: 0x6577617264000000, w2: 0, w3: 0 }
    } else if code == 11 {
        Symbol { w0: 0x496e76616c696453, w1: 0x6576657269747900, w2: 0, w3: 0 }
    } else if code == 12 {
        Symbol { w0: 0x526574656e74696f, w1: 0x6e4c696d69744f75, w2: 0x744f6652616e6765, w3: 0 }
    } else if code == 13 {
        Symbol { w0: 0x4475706c69636174, w1: 0x654f757461676549, w2: 0x6e70757400000000, w3: 0 }
    } else if code == 14 {
        Symbol { w0: 0x496e76616c696450, w1: 0x656e616c7479416d, w2: 0x6f756e7400000000, w3: 0 }
    } else if code == 15 {
        Symbol { w0: 0x496e76616c696452, w1: 0x6577617264416d6f, w2: 0x756e740000000000, w3: 0 }
    } else if code == 16 {
        Symbol { w0: 0x436f6e6669674672, w1: 0x6f7a656e00000000, w2: 0, w3: 0 }
    } else if code == 17 {
        Symbol { w0: 0x496e76616c696449, w1: 0x6e70757400000000, w2: 0, w3: 0 }
    } else {
        Symbol { w0: 0x5365766572697479, w1: 0x4e6f74496e536574, w2: 0, w3: 0 }
    }
}

/// Short description of a failure code; codes past 18 share that of 18.
#[verifier::allow_in_spec]
pub fn failure_description(code: u32) -> Symbol
    returns
        (if code == 1 {
            Symbol { w0: 0x436f6e7472616374, w1: 0x20616c7265616479, w2: 0x20696e697469616c, w3: 0x697a656400000000 }
        } else if code == 2 {
            Symbol { w0: 0x436f6e7472616374, w1: 0x206e6f7420796574, w2: 0x20696e697469616c, w3: 0x697a656400000000 }
        } else if code == 3 {
            Symbol { w0: 0x43616c6c6572206c, w1: 0x61636b7320726571, w2: 0x756972656420726f, w3: 0x6c65000000000000 }
        } else if code == 4 {
            Symbol { w0: 0x4e6f20636f6e6669, w1: 0x6720666f72207365, w2: 0x7665726974790000, w3: 0 }
        } else if code == 5 {
            Symbol { w0: 0x53746f7261676520, w1: 0x76657273696f6e20, w2: 0x6d69736d61746368, w3: 0 }
        } else if code == 6 {
            Symbol { w0: 0x436f6e7472616374, w1: 0x2069732070617573, w2: 0x6564000000000000, w3: 0 }
        } else if code == 7 {
            Symbol { w0: 0x4e6f2070656e6469, w1: 0x6e67207472616e73, w2: 0x6665720000000000, w3: 0 }
        } else if code == 8 {
            Symbol { w0: 0x5468726573686f6c, w1: 0x64206f7574206f66, w2: 0x2072616e67650000, w3: 0 }
        } else if code == 9 {
            Symbol { w0: 0x50656e616c747920, w1: 0x6f7574206f662072, w2: 0x616e676500000000, w3: 0 }
        } else if code == 10 {
            Symbol { w0: 0x526577617264206f, w1: 0x7574206f66207261, w2: 0x6e67650000000000, w3: 0 }
        } else if code == 11 {
            Symbol { w0: 0x5365766572697479, w1: 0x206e6f7420737570, w2: 0x706f727465640000, w3: 0 }
        } else if code == 12 {
            Symbol { w0: 0x526574656e74696f, w1: 0x6e206c696d697420, w2: 0x6f7574206f662072, w3: 0x616e676500000000 }
        } else if code == 13 {
            Symbol { w0: 0x4475706c69636174, w1: 0x65206f7574616765, w2: 0x20696e7075740000, w3: 0 }
        } else if code == 14 {
            Symbol { w0: 0x496e76616c696420, w1: 0x70656e616c747920, w2: 0x616d6f756e740000, w3: 0 }
        } else if code == 15 {
            Symbol { w0: 0x496e76616c696420, w1: 0x7265776172642061, w2: 0x6d6f756e74000000, w3: 0 }
        } else if code == 16 {
            Symbol { w0: 0x436f6e6669677572, w1: 0x6174696f6e206973, w2: 0x2066726f7a656e00, w3: 0 }
        } else if code == 17 {
            Symbol { w0: 0x496e76616c696420, w1: 0x696e707574207061, w2: 0x72616d6574657200, w3: 0 }
        } else {
            Symbol { w0: 0x437573746f6d2073, w1: 0x6576657269747920, w2: 0x6e6f742072656769, w3: 0x7374657265640000 }
        }),
{
    if code == 1 {
        Symbol { w0: 0x436f6e7472616374, w1: 0x20616c7265616479, w2: 0x20696e697469616c, w3: 0x697a656400000000 }
    } else if code == 2 {
        Symbol { w0: 0x436f6e7472616374, w1: 0x206e6f7420796574, w2: 0x20696e697469616c, w3: 0x697a656400000000 }
    } else if code == 3 {
        Symbol { w0: 0x43616c6c6572206c, w1: 0x61636b7320726571, w2: 0x756972656420726f, w3: 0x6c65000000000000 }
    } else if code == 4 {
        Symbol { w0: 0x4e6f20636f6e6669, w1: 0x6720666f72207365, w2: 0x7665726974790000, w3: 0 }
    } else if code == 5 {
        Symbol { w0: 0x53746f7261676520, w1: 0x76657273696f6e20, w2: 0x6d69736d61746368, w3: 0 }
    } else if code == 6 {
        Symbol { w0: 0x436f6e7472616374, w1: 0x2069732070617573, w2: 0x6564000000000000, w3: 0 }
    } else if code == 7 {
        Symbol { w0: 0x4e6f2070656e6469, w1: 0x6e67207472616e73, w2: 0x6665720000000000, w3: 0 }
    } else if code == 8 {
        Symbol { w0: 0x5468726573686f6c, w1: 0x64206f7574206f66, w2: 0x2072616e67650000, w3: 0 }
    } else if code == 9 {
        Symbol { w0: 0x50656e616c747920, w1: 0x6f7574206f662072, w2: 0x616e676500000000, w3: 0 }
    } else if code == 10 {
        Symbol { w0: 0x526577617264206f, w1: 0x7574206f66207261, w2: 0x6e67650000000000, w3: 0 }
    } else if code == 11 {
        Symbol { w0: 0x5365766572697479, w1: 0x206e6f7420737570, w2: 0x706f727465640000, w3: 0 }
    } else if code == 12 {
        Symbol { w0: 0x526574656e74696f, w1: 0x6e206c696d697420, w2: 0x6f7574206f662072, w3: 0x616e676500000000 }
    } else if code == 13 {
        Symbol { w0: 0x4475706c69636174, w1: 0x65206f7574616765, w2: 0x20696e7075740000, w3: 0 }
    } else if code == 14 {
        Symbol { w0: 0x496e76616c696420, w1: 0x70656e616c747920, w2: 0x616d6f756e740000, w3: 0 }
    } else if code == 15 {
        Symbol { w0: 0x496e76616c696420, w1: 0x7265776172642061, w2: 0x6d6f756e74000000, w3: 0 }
    } else if code == 16 {
        Symbol { w0: 0x436f6e6669677572, w1: 0x6174696f6e206973, w2: 0x2066726f7a656e00, w3: 0 }
    } else if code == 17 {
        Symbol { w0: 0x496e76616c696420, w1: 0x696e707574207061, w2: 0x72616d6574657200, w3: 0 }
    } else {
        Symbol { w0: 0x437573746f6d2073, w1: 0x6576657269747920, w2: 0x6e6f742072656769, w3: 0x7374657265640000 }
    }
}

/// The result schema: label `v1`, schema version `RESULT_SCHEMA_VERSION`,
/// the status, payment and rating symbols, the configuration hash flag
/// set and no deprecated symbol.
pub open spec fn is_result_schema(r: SLAResultSchema) -> bool {
    &&& r.version == Symbol::v1()
    &&& r.schema_version == RESULT_SCHEMA_VERSION
    &&& r.status_met == Symbol::met()
    &&& r.status_violated == Symbol::viol()
    &&& r.payment_reward == Symbol::rew()
    &&& r.payment_penalty == Symbol::pen()
    &&& r.rating_exceptional == Symbol::top()
    &&& r.rating_excellent == Symbol::excel()
    &&& r.rating_good == Symbol::good()
    &&& r.rating_poor == Symbol::poor()
    &&& r.includes_config_version_hash
    &&& r.deprecated_symbols@ == Seq::<DeprecatedSymbol>::empty()
}

/// The failure codes 1 to 18 in ascending order.
pub open spec fn failure_codes() -> Seq<FailureCode> {
    Seq::new(
        FAILURE_CODE_COUNT as nat,
        |i: int| FailureCode { code: (i + 1) as u32, label: failure_label((i + 1) as u32), description: failure_description((i + 1) as u32) },
    )
}

/// The feature symbols, in order.
pub open spec fn features() -> Seq<Symbol> {
    seq![
        Symbol::calc(),
        Symbol::audit(),
        Symbol::pause(),
        Symbol::stats(),
        Symbol::history(),
        Symbol::failcode(),
        Symbol::safe_call(),
        Symbol::ver_nego(),
        Symbol::corr_id(),
        Symbol::freeze(),
    ]
}

/// Builds the result schema.
pub fn build_result_schema() -> (r: SLAResultSchema)
    ensures
        is_result_schema(r),
{
    SLAResultSchema {
        version: Symbol::v1(),
        schema_version: RESULT_SCHEMA_VERSION,
        status_met: Symbol::met(),
        status_violated: Symbol::viol(),
        payment_reward: Symbol::rew(),
        payment_penalty: Symbol::pen(),
        rating_exceptional: Symbol::top(),
        rating_excellent: Symbol::excel(),
        rating_good: Symbol::good(),
        rating_poor: Symbol::poor(),
        includes_config_version_hash: true,
        deprecated_symbols: Vec::new(),
    }
}

impl SLACalculatorContract {
    /// The result encoding schema.
    pub fn get_result_schema(env: &ContractEnv) -> (r: Result<SLAResultSchema, SLAError>)
        ensures
            match Self::spec_check_version(env@.storage) {
                Err(x) => r is Err && r->Err_0 == x,
                Ok(_) => r is Ok && is_result_schema(r->Ok_0),
            },
    {
        Self::check_version(env)?;
        Ok(build_result_schema())
    }

    /// The catalogue of failure codes, in ascending order, labelled `v1`.
    pub fn get_failure_schema(env: &ContractEnv) -> (r: Result<FailureSchema, SLAError>)
        ensures
            match Self::spec_check_version(env@.storage) {
                Err(x) => r is Err && r->Err_0 == x,
                Ok(_) => r is Ok && r->Ok_0.version == Symbol::v1() && r->Ok_0.codes@ == failure_codes(),
            },
    {
        Self::check_version(env)?;
        let mut codes: Vec<FailureCode> = Vec::new();
        let mut code: u32 = 1;
        while code <= FAILURE_CODE_COUNT
            invariant
                1 <= code <= FAILURE_CODE_COUNT + 1,
                codes@ == failure_codes().take(code - 1),
            decreases FAILURE_CODE_COUNT + 1 - code,
        {
            codes.push(FailureCode { code, label: failure_label(code), description: failure_description(code) });
            code += 1;
            assert(codes@ =~= failure_codes().take(code - 1));
        }
        assert(failure_codes().take(FAILURE_CODE_COUNT as int) =~= failure_codes());
        Ok(FailureSchema { version: Symbol::v1(), codes })
    }

    /// Static capabilities: contract name `sla_calc`, schema versions, the
    /// canonical severities and the feature list.
    pub fn get_contract_metadata(env: &ContractEnv) -> (r: Result<ContractMetadata, SLAError>)
        ensures
            match Self::spec_check_version(env@.storage) {
                Err(x) => r is Err && r->Err_0 == x,
                Ok(_) => r is Ok && {
                    let m = r->Ok_0;
                    &&& m.contract_name == Symbol::sla_calc()
                    &&& m.storage_version == STORAGE_VERSION
                    &&& m.result_schema_version == RESULT_SCHEMA_VERSION
                    &&& m.supported_severities@ == Self::spec_canonical_severities()
                    &&& m.features@ == features()
                },
            },
    {
        Self::check_version(env)?;
        let severities = Self::canonical_severities(env);
        let mut features: Vec<Symbol> = Vec::new();
        features.push(Symbol::calc());
        features.push(Symbol::audit());
        features.push(Symbol::pause());
        features.push(Symbol::stats());
        features.push(Symbol::history());
        features.push(Symbol::failcode());
        features.push(Symbol::safe_call());
        features.push(Symbol::ver_nego());
        features.push(Symbol::corr_id());
        features.push(Symbol::freeze());
        assert(features@ =~= self::features());
        Ok(ContractMetadata {
            contract_name: Symbol::sla_calc(),
            storage_version: STORAGE_VERSION,
            result_schema_version: RESULT_SCHEMA_VERSION,
            supported_severities: severities,
            features,
        })
    }
}

} // verus!
