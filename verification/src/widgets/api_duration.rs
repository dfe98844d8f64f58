//! Shows the API share of the session duration as a floored percentage.

use vstd::prelude::*;
use vstd::string::StringExecFns;
use crate::config::WidgetConfig;
use crate::data::SessionData;
use crate::text::{dec_of, u128_to_string};
use crate::widgets::{hidden, hidden_model, shown, shown_model, WidgetModel, WidgetOutput};

verus! {

pub struct ApiDurationWidget;

pub open spec fn api_duration_model(data: SessionData, raw: bool) -> WidgetModel {
    match data.cost {
        None => hidden_model(35),
        Some(cost) => match cost.total_duration_ms {
            Some(total) => if total > 0 {
                match cost.total_api_duration_ms {
                    Some(api) => {
                        let pct = (api as int * 100) / (total as int);
                        let text = if raw {
                            dec_of(pct) + seq!['%']
                        } else {
                            "API: "@ + dec_of(pct) + seq!['%']
                        };
                        shown_model(text, 35)
                    },
                    None => hidden_model(35),
                }
            } else {
                hidden_model(35)
            },
            None => hidden_model(35),
        },
    }
}

impl ApiDurationWidget {
    pub fn name(&self) -> (r: &'static str)
        ensures
            r@ == "api-duration"@,
    {
        "api-duration"
    }

    /// Nothing is shown while the cost record, a positive total duration or
    /// the API duration is absent.
    pub fn render(&self, data: &SessionData, config: &WidgetConfig) -> (out: WidgetOutput)
        ensures
            out.model() == api_duration_model(*data, config.raw_value),
    {
        proof {
            reveal_strlit("%");
            assert("%"@ =~= seq!['%']);
        }
        let cost = match &data.cost {
            Some(c) => c,
            None => { return hidden(35) },
        };
        let total = match cost.total_duration_ms {
            Some(d) => if d > 0 {
                d
            } else {
                return hidden(35);
            },
            None => { return hidden(35) },
        };
        let api = match cost.total_api_duration_ms {
            Some(a) => a,
            None => { return hidden(35) },
        };
        let pct = (api as u128 * 100) / (total as u128);
        let pct_str = u128_to_string(pct);
        proof {
            assert((api as u128 * 100) as int / (total as u128) as int == (api as int * 100) / (
            total as int));
        }
        let text = if config.raw_value {
            let mut t = pct_str;
            t.append("%");
            t
        } else {
            let mut t = "API: ".to_owned();
            t.append(pct_str.as_str());
            t.append("%");
            t
        };
        proof {
            let pcti = (api as int * 100) / (total as int);
            if config.raw_value {
                assert(text@ =~= dec_of(pcti) + seq!['%']);
            } else {
                assert(text@ =~= "API: "@ + dec_of(pcti) + seq!['%']);
            }
        }
        shown(text, 35)
    }
}

} // verus!
