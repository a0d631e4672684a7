pub mod base_traits;
pub mod box_impl;
pub mod impl_std;
pub mod iter;
pub mod option_impl;
pub mod parse_error;
pub mod test_common;
pub mod token;
pub mod vec_impl;

pub use box_impl::BoxValidator;
pub use impl_std::{PairMatcher, Tuple2Validator, Tuple3Validator, Tuple4Validator};
pub use vec_impl::VecValidator;
pub use option_impl::OptionValidator;
pub use base_traits::{ConsumableToken, Matcher, Named, NoOpParser, Parsable, Parser, Pattern};
pub use iter::TokenIter;
pub use test_common::{BoxStruct, BoxStructParser, TestStruct, TestStructParser, VecStruct, VecStructParser};
pub use parse_error::{identifier, ParseError, ParseErrorType};
pub use token::{IdentifierValue, LiteralIntValue, LiteralStringValue, Token, TokenMatch, TokenParser};
