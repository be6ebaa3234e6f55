//! The amount-type classification: the static table that maps a
//! three-digit balance/summary type code to its role and classification,
//! with the documented custom numeric ranges kept directional.
use crate::util::{code_value_spec, parse_signed_spec};
use vstd::prelude::*;

verus! {

/// The classified amount type: the raw code and what it names.
#[derive(Debug)]
pub enum AmountType {
    Status(String, AmountSubtype),
    CreditSummary(String, AmountSubtype),
    DebitSummary(String, AmountSubtype),
    Unknown(String, AmountSubtype),
}

/// The mathematical shape of an [`AmountType`].
pub enum AmountTypeS {
    Status(Seq<char>, AmountSubtype),
    CreditSummary(Seq<char>, AmountSubtype),
    DebitSummary(Seq<char>, AmountSubtype),
    Unknown(Seq<char>, AmountSubtype),
}

impl View for AmountType {
    type V = AmountTypeS;

    open spec fn view(&self) -> AmountTypeS {
        match self {
            AmountType::Status(c, s) => AmountTypeS::Status(c@, *s),
            AmountType::CreditSummary(c, s) => AmountTypeS::CreditSummary(c@, *s),
            AmountType::DebitSummary(c, s) => AmountTypeS::DebitSummary(c@, *s),
            AmountType::Unknown(c, s) => AmountTypeS::Unknown(c@, *s),
        }
    }
}

/// The role a classified amount code implies.
#[derive(Clone, Copy, Debug, PartialEq, Eq, Structural)]
pub enum AmountKind {
    Status,
    CreditSummary,
    DebitSummary,
    Unknown,
}

/// The detailed classification of an amount type code.
#[derive(Clone, Copy, Debug, PartialEq, Eq, Structural)]
pub enum AmountSubtype {
    AchNetPosition,
    AchSettlementCredits,
    AchSettlementDebits,
    AdjustedBalance,
    AdjustedBalanceMtd,
    AdjustedBalanceYtd,
    AdjustedTotalDisbursement,
    AdjustmentToBalances,
    AggregateBalanceAdjustments,
    AvailableCommitmentAmount,
    Average1DayFloatMtd,
    Average1DayFloatYtd,
    Average2DayFloatMtd,
    Average2DayFloatYtd,
    AverageAdjustmentToBalancesMtd,
    AverageAdjustmentToBalancesYtd,
    AverageAvailablePreviousMonth,
    AverageClosingAvailableLastMonth,
    AverageClosingAvailableMtd,
    AverageClosingAvailableYtd,
    AverageClosingAvailableYtdLastMonth,
    AverageClosingLedgerMtd,
    AverageClosingLedgerPreviousMonth,
    AverageClosingLedgerYtd,
    AverageClosingLedgerYtdPreviousMonth,
    AverageCurrentAvailableMtd,
    AverageCurrentAvailableYtd,
    AverageOpeningAvailableMtd,
    AverageOpeningAvailableYtd,
    AverageOpeningLedgerMtd,
    AverageOpeningLedgerYtd,
    ClosingAvailable,
    ClosingLedger,
    CorporateTradePaymentCredits,
    CorporateTradePaymentDebits,
    CorporateTradePaymentSettlement,
    CorrespondentBankDeposit,
    CreditsNotDetailed,
    CurrentAvailable,
    CurrentAvailableCrsSupressed,
    CurrentDayTotalLockboxDeposits,
    CurrentLedger,
    CustomCreditSummary,
    CustomDebitSummary,
    CustomStatus,
    DebitsNotDetailed,
    DepositsSubjectToFloat,
    DisbursingFundingRequirement,
    DisbursingOpeningAvailableBalance,
    EdiTransactionCredit,
    EdiTransactionDebits,
    EstimatedTotalDisbursement,
    FiveDayFloat,
    FloatAdjustment,
    FourDayFloat,
    FrbFreightPaymentDebits,
    FrbPresentmentEstimate,
    GrandTotalCreditsLessGrandTotalDebits,
    InterceptDebits,
    InterestAmountPastDue,
    InvestmentInterest,
    InvestmentSold,
    InvestmentsPurchased,
    LateDebitsAfterNotification,
    LateDeposit,
    ListPostCredits,
    ListPostDebits,
    LoanBalance,
    LoanDisbursement,
    MonthlyDividends,
    NetZeroBalanceAmount,
    OneDayFloat,
    OpeningAvailable,
    OpeningAvailableAndTotalSameDayAchDtcDeposit,
    OpeningLedger,
    PaymentAmountDue,
    PrincipalAmountPastDue,
    PrincipalLoanBalance,
    SixDayFloat,
    TargetBalance,
    ThreeOrMoreDaysFloat,
    TodaysTotalDebits,
    TotalAchCredits,
    TotalAchDebits,
    TotalAchDisbursementFundingDebits,
    TotalAchDisbursingFundingCredits,
    TotalAchReturnItems,
    TotalAdjustmentCreditsYtd,
    TotalAmountOfSecuritiesPurchased,
    TotalAprDebits,
    TotalAtmCredits,
    TotalAtmDebits,
    TotalAutomaticTransferCredits,
    TotalAutomaticTransferDebits,
    TotalBackValueCredits,
    TotalBackValueDebits,
    TotalBankCardDeposits,
    TotalBankersAcceptanceCredits,
    TotalBankersAcceptancesDebit,
    TotalBankOriginatedDebits,
    TotalBankPreparedDeposits,
    TotalBookTransferCredits,
    TotalBookTransferDebits,
    TotalBrokerDebits,
    TotalBrokerDebitsChf,
    TotalBrokerDebitsFf,
    TotalBrokerDeposits,
    TotalBrokerDepositsChf,
    TotalBrokerDepositsFf,
    TotalCashCenterCredits,
    TotalCashCenterDebits,
    TotalCashLetterAdjustments,
    TotalCashLetterCredits,
    TotalCashLetterDebits,
    TotalCheckPaid,
    TotalCheckPaidCumulativeMtd,
    TotalChecksPostedAndReturned,
    TotalCollectionCredits,
    TotalCollectionDebit,
    TotalCommercialDeposits,
    TotalConcentrationCredits,
    TotalControlledDisbursingCredits,
    TotalControlledDisbursingDebits,
    TotalCreditAdjustment,
    TotalCreditAmountMtd,
    TotalCreditReversals,
    TotalCredits,
    TotalCreditsLessWireTransferAndReturnedChecks,
    TotalDebitAdjustments,
    TotalDebitAmountMtd,
    TotalDebitLessWireTransfersAndChargeBacks,
    TotalDebitReversals,
    TotalDebits,
    TotalDebitsExcludingReturnedItems,
    TotalDepositedItemsReturned,
    TotalDisbursingChecksPaidEarlyAmount,
    TotalDisbursingChecksPaidLastAmount,
    TotalDisbursingChecksPaidLaterAmount,
    TotalDtcCredits,
    TotalDtcDebits,
    TotalDtcDisbursingCredits,
    TotalEscrowCredits,
    TotalEscrowDebits,
    TotalFederalReserveBankCommercialBankDebit,
    TotalFedFundsPurchased,
    TotalFedFundsSold,
    TotalFloat,
    TotalForeignCheckPurchased,
    TotalFreightPaymentCredits,
    TotalFundsRequired,
    TotalIncomingMoneyTransfers,
    TotalInternationalCredits,
    TotalInternationalCreditsChf,
    TotalInternationalCreditsFf,
    TotalInternationalDebitChf,
    TotalInternationalDebitFf,
    TotalInternationalDebits,
    TotalInternationalMoneyTransferCredits,
    TotalInternationalMoneyTransferDebits,
    TotalInvestmentInterestDebits,
    TotalInvestmentPosition,
    TotalLettersOfCredit,
    TotalLoanPayment,
    TotalLoanPayments,
    TotalLoanProceeds,
    TotalLockboxDebits,
    TotalLockboxDeposits,
    TotalMiscellaneousCredits,
    TotalMiscellaneousDebits,
    TotalMiscellaneousDeposits,
    TotalMiscellaneousSecuritiesCreditsChf,
    TotalMiscellaneousSecuritiesCreditsFf,
    TotalMiscellaneousSecuritiesDbFf,
    TotalMiscellaneousSecuritiesDebitChf,
    TotalOtherCheckDeposits,
    TotalOutgoingMoneyTransfers,
    TotalPayableThroughDrafts,
    TotalPreauthorizedPaymentCredits,
    TotalRejectedCredits,
    TotalRejectedDebits,
    TotalSecuritiesInterest,
    TotalSecuritiesInterestChf,
    TotalSecuritiesInterestFf,
    TotalSecuritiesMatured,
    TotalSecuritiesMaturedChf,
    TotalSecuritiesMaturedFf,
    TotalSecuritiesPurchasedChf,
    TotalSecuritiesPurchasedFf,
    TotalSecuritiesSold,
    TotalSecuritiesSoldChf,
    TotalSecuritiesSoldFf,
    TotalSecurityCredits,
    TotalSecurityDebits,
    TotalTrustCredits,
    TotalTrustDebits,
    TotalUniversalCredits,
    TotalUniversalDebits,
    TotalValueDatedFunds,
    TotalWireTransfersInCHF,
    TotalWireTransfersInFF,
    TotalWireTransfersOutChf,
    TotalWireTransfersOutFf,
    TotalYtdAdjustment,
    TotalZbaCredits,
    TotalZbaDebits,
    TransferCalculation,
    TransferCalculationDebit,
    TwoOrMoreDaysFloat,
    Unknown,
    ZeroDayFloat,
}

pub open spec fn amount_class_low_spec(n: u16) -> (AmountKind, AmountSubtype) {
    if n == 10 {
        (AmountKind::Status, AmountSubtype::OpeningLedger)
    } else
    if n == 11 {
        (AmountKind::Status, AmountSubtype::AverageOpeningLedgerMtd)
    } else
    if n == 12 {
        (AmountKind::Status, AmountSubtype::AverageOpeningLedgerYtd)
    } else
    if n == 15 {
        (AmountKind::Status, AmountSubtype::ClosingLedger)
    } else
    if n == 20 {
        (AmountKind::Status, AmountSubtype::AverageClosingLedgerMtd)
    } else
    if n == 21 {
        (AmountKind::Status, AmountSubtype::AverageClosingLedgerPreviousMonth)
    } else
    if n == 22 {
        (AmountKind::Status, AmountSubtype::AggregateBalanceAdjustments)
    } else
    if n == 24 {
        (AmountKind::Status, AmountSubtype::AverageClosingLedgerYtdPreviousMonth)
    } else
    if n == 25 {
        (AmountKind::Status, AmountSubtype::AverageClosingLedgerYtd)
    } else
    if n == 30 {
        (AmountKind::Status, AmountSubtype::CurrentLedger)
    } else
    if n == 37 {
        (AmountKind::Status, AmountSubtype::AchNetPosition)
    } else
    if n == 39 {
        (AmountKind::Status, AmountSubtype::OpeningAvailableAndTotalSameDayAchDtcDeposit)
    } else
    if n == 40 {
        (AmountKind::Status, AmountSubtype::OpeningAvailable)
    } else
    if n == 41 {
        (AmountKind::Status, AmountSubtype::AverageOpeningAvailableMtd)
    } else
    if n == 42 {
        (AmountKind::Status, AmountSubtype::AverageOpeningAvailableYtd)
    } else
    if n == 43 {
        (AmountKind::Status, AmountSubtype::AverageAvailablePreviousMonth)
    } else
    if n == 44 {
        (AmountKind::Status, AmountSubtype::DisbursingOpeningAvailableBalance)
    } else
    if n == 45 {
        (AmountKind::Status, AmountSubtype::ClosingAvailable)
    } else
    if n == 50 {
        (AmountKind::Status, AmountSubtype::AverageClosingAvailableMtd)
    } else
    if n == 51 {
        (AmountKind::Status, AmountSubtype::AverageClosingAvailableLastMonth)
    } else
    if n == 54 {
        (AmountKind::Status, AmountSubtype::AverageClosingAvailableYtdLastMonth)
    } else
    if n == 55 {
        (AmountKind::Status, AmountSubtype::AverageClosingAvailableYtd)
    } else
    if n == 56 {
        (AmountKind::Status, AmountSubtype::LoanBalance)
    } else
    if n == 57 {
        (AmountKind::Status, AmountSubtype::TotalInvestmentPosition)
    } else
    if n == 59 {
        (AmountKind::Status, AmountSubtype::CurrentAvailableCrsSupressed)
    } else
    if n == 60 {
        (AmountKind::Status, AmountSubtype::CurrentAvailable)
    } else
    if n == 61 {
        (AmountKind::Status, AmountSubtype::AverageCurrentAvailableMtd)
    } else
    if n == 62 {
        (AmountKind::Status, AmountSubtype::AverageCurrentAvailableYtd)
    } else
    if n == 63 {
        (AmountKind::Status, AmountSubtype::TotalFloat)
    } else
    if n == 65 {
        (AmountKind::Status, AmountSubtype::TargetBalance)
    } else
    if n == 66 {
        (AmountKind::Status, AmountSubtype::AdjustedBalance)
    } else
    if n == 67 {
        (AmountKind::Status, AmountSubtype::AdjustedBalanceMtd)
    } else
    if n == 68 {
        (AmountKind::Status, AmountSubtype::AdjustedBalanceYtd)
    } else
    if n == 70 {
        (AmountKind::Status, AmountSubtype::ZeroDayFloat)
    } else
    if n == 72 {
        (AmountKind::Status, AmountSubtype::OneDayFloat)
    } else
    if n == 73 {
        (AmountKind::Status, AmountSubtype::FloatAdjustment)
    } else
    if n == 74 {
        (AmountKind::Status, AmountSubtype::TwoOrMoreDaysFloat)
    } else
    if n == 75 {
        (AmountKind::Status, AmountSubtype::ThreeOrMoreDaysFloat)
    } else
    if n == 76 {
        (AmountKind::Status, AmountSubtype::AdjustmentToBalances)
    } else
    if n == 77 {
        (AmountKind::Status, AmountSubtype::AverageAdjustmentToBalancesMtd)
    } else
    if n == 78 {
        (AmountKind::Status, AmountSubtype::AverageAdjustmentToBalancesYtd)
    } else
    if n == 79 {
        (AmountKind::Status, AmountSubtype::FourDayFloat)
    } else
    if n == 80 {
        (AmountKind::Status, AmountSubtype::FiveDayFloat)
    } else
    if n == 81 {
        (AmountKind::Status, AmountSubtype::SixDayFloat)
    } else
    if n == 82 {
        (AmountKind::Status, AmountSubtype::Average1DayFloatMtd)
    } else
    if n == 83 {
        (AmountKind::Status, AmountSubtype::Average1DayFloatYtd)
    } else
    if n == 84 {
        (AmountKind::Status, AmountSubtype::Average2DayFloatMtd)
    } else
    if n == 85 {
        (AmountKind::Status, AmountSubtype::Average2DayFloatYtd)
    } else
    if n == 86 {
        (AmountKind::Status, AmountSubtype::TransferCalculation)
    } else
    if n == 100 {
        (AmountKind::CreditSummary, AmountSubtype::TotalCredits)
    } else
    if n == 101 {
        (AmountKind::CreditSummary, AmountSubtype::TotalCreditAmountMtd)
    } else
    if n == 105 {
        (AmountKind::CreditSummary, AmountSubtype::CreditsNotDetailed)
    } else
    if n == 106 {
        (AmountKind::CreditSummary, AmountSubtype::DepositsSubjectToFloat)
    } else
    if n == 107 {
        (AmountKind::CreditSummary, AmountSubtype::TotalAdjustmentCreditsYtd)
    } else
    if n == 109 {
        (AmountKind::CreditSummary, AmountSubtype::CurrentDayTotalLockboxDeposits)
    } else
    if n == 110 {
        (AmountKind::CreditSummary, AmountSubtype::TotalLockboxDeposits)
    } else
    if n == 120 {
        (AmountKind::CreditSummary, AmountSubtype::EdiTransactionCredit)
    } else
    if n == 130 {
        (AmountKind::CreditSummary, AmountSubtype::TotalConcentrationCredits)
    } else
    if n == 131 {
        (AmountKind::CreditSummary, AmountSubtype::TotalDtcCredits)
    } else
    if n == 140 {
        (AmountKind::CreditSummary, AmountSubtype::TotalAchCredits)
    } else
    if n == 146 {
        (AmountKind::CreditSummary, AmountSubtype::TotalBankCardDeposits)
    } else
    if n == 150 {
        (AmountKind::CreditSummary, AmountSubtype::TotalPreauthorizedPaymentCredits)
    } else
    if n == 160 {
        (AmountKind::CreditSummary, AmountSubtype::TotalAchDisbursingFundingCredits)
    } else
    if n == 162 {
        (AmountKind::CreditSummary, AmountSubtype::CorporateTradePaymentSettlement)
    } else
    if n == 163 {
        (AmountKind::CreditSummary, AmountSubtype::CorporateTradePaymentCredits)
    } else
    if n == 167 {
        (AmountKind::CreditSummary, AmountSubtype::AchSettlementCredits)
    } else
    if n == 170 {
        (AmountKind::CreditSummary, AmountSubtype::TotalOtherCheckDeposits)
    } else
    if n == 178 {
        (AmountKind::CreditSummary, AmountSubtype::ListPostCredits)
    } else
    if n == 180 {
        (AmountKind::CreditSummary, AmountSubtype::TotalLoanProceeds)
    } else
    if n == 182 {
        (AmountKind::CreditSummary, AmountSubtype::TotalBankPreparedDeposits)
    } else
    if n == 185 {
        (AmountKind::CreditSummary, AmountSubtype::TotalMiscellaneousDeposits)
    } else
    if n == 186 {
        (AmountKind::CreditSummary, AmountSubtype::TotalCashLetterCredits)
    } else
    if n == 188 {
        (AmountKind::CreditSummary, AmountSubtype::TotalCashLetterAdjustments)
    } else
    if n == 190 {
        (AmountKind::CreditSummary, AmountSubtype::TotalIncomingMoneyTransfers)
    } else
    if n == 200 {
        (AmountKind::CreditSummary, AmountSubtype::TotalAutomaticTransferCredits)
    } else
    if n == 205 {
        (AmountKind::CreditSummary, AmountSubtype::TotalBookTransferCredits)
    } else
    if n == 207 {
        (AmountKind::CreditSummary, AmountSubtype::TotalInternationalMoneyTransferCredits)
    } else
    if n == 210 {
        (AmountKind::CreditSummary, AmountSubtype::TotalInternationalCredits)
    } else
    if n == 215 {
        (AmountKind::CreditSummary, AmountSubtype::TotalLettersOfCredit)
    } else
    if n == 230 {
        (AmountKind::CreditSummary, AmountSubtype::TotalSecurityCredits)
    } else
    if n == 231 {
        (AmountKind::CreditSummary, AmountSubtype::TotalCollectionCredits)
    } else
    if n == 239 {
        (AmountKind::CreditSummary, AmountSubtype::TotalBankersAcceptanceCredits)
    } else
    if n == 245 {
        (AmountKind::CreditSummary, AmountSubtype::MonthlyDividends)
    } else
    if n == 250 {
        (AmountKind::CreditSummary, AmountSubtype::TotalChecksPostedAndReturned)
    } else
    if n == 251 {
        (AmountKind::CreditSummary, AmountSubtype::TotalDebitReversals)
    } else
    if n == 256 {
        (AmountKind::CreditSummary, AmountSubtype::TotalAchReturnItems)
    } else
    if n == 260 {
        (AmountKind::CreditSummary, AmountSubtype::TotalRejectedCredits)
    } else
    if n == 270 {
        (AmountKind::CreditSummary, AmountSubtype::TotalZbaCredits)
    } else
    if n == 271 {
        (AmountKind::CreditSummary, AmountSubtype::NetZeroBalanceAmount)
    } else
    if n == 280 {
        (AmountKind::CreditSummary, AmountSubtype::TotalControlledDisbursingCredits)
    } else
    if n == 285 {
        (AmountKind::CreditSummary, AmountSubtype::TotalDtcDisbursingCredits)
    } else
    if n == 294 {
        (AmountKind::CreditSummary, AmountSubtype::TotalAtmCredits)
    } else {
        (AmountKind::Unknown, AmountSubtype::Unknown)
    }
}

fn amount_class_low(n: u16) -> (r: (AmountKind, AmountSubtype))
    ensures
        r == amount_class_low_spec(n),
{
    if n == 10 {
        (AmountKind::Status, AmountSubtype::OpeningLedger)
    } else
    if n == 11 {
        (AmountKind::Status, AmountSubtype::AverageOpeningLedgerMtd)
    } else
    if n == 12 {
        (AmountKind::Status, AmountSubtype::AverageOpeningLedgerYtd)
    } else
    if n == 15 {
        (AmountKind::Status, AmountSubtype::ClosingLedger)
    } else
    if n == 20 {
        (AmountKind::Status, AmountSubtype::AverageClosingLedgerMtd)
    } else
    if n == 21 {
        (AmountKind::Status, AmountSubtype::AverageClosingLedgerPreviousMonth)
    } else
    if n == 22 {
        (AmountKind::Status, AmountSubtype::AggregateBalanceAdjustments)
    } else
    if n == 24 {
        (AmountKind::Status, AmountSubtype::AverageClosingLedgerYtdPreviousMonth)
    } else
    if n == 25 {
        (AmountKind::Status, AmountSubtype::AverageClosingLedgerYtd)
    } else
    if n == 30 {
        (AmountKind::Status, AmountSubtype::CurrentLedger)
    } else
    if n == 37 {
        (AmountKind::Status, AmountSubtype::AchNetPosition)
    } else
    if n == 39 {
        (AmountKind::Status, AmountSubtype::OpeningAvailableAndTotalSameDayAchDtcDeposit)
    } else
    if n == 40 {
        (AmountKind::Status, AmountSubtype::OpeningAvailable)
    } else
    if n == 41 {
        (AmountKind::Status, AmountSubtype::AverageOpeningAvailableMtd)
    } else
    if n == 42 {
        (AmountKind::Status, AmountSubtype::AverageOpeningAvailableYtd)
    } else
    if n == 43 {
        (AmountKind::Status, AmountSubtype::AverageAvailablePreviousMonth)
    } else
    if n == 44 {
        (AmountKind::Status, AmountSubtype::DisbursingOpeningAvailableBalance)
    } else
    if n == 45 {
        (AmountKind::Status, AmountSubtype::ClosingAvailable)
    } else
    if n == 50 {
        (AmountKind::Status, AmountSubtype::AverageClosingAvailableMtd)
    } else
    if n == 51 {
        (AmountKind::Status, AmountSubtype::AverageClosingAvailableLastMonth)
    } else
    if n == 54 {
        (AmountKind::Status, AmountSubtype::AverageClosingAvailableYtdLastMonth)
    } else
    if n == 55 {
        (AmountKind::Status, AmountSubtype::AverageClosingAvailableYtd)
    } else
    if n == 56 {
        (AmountKind::Status, AmountSubtype::LoanBalance)
    } else
    if n == 57 {
        (AmountKind::Status, AmountSubtype::TotalInvestmentPosition)
    } else
    if n == 59 {
        (AmountKind::Status, AmountSubtype::CurrentAvailableCrsSupressed)
    } else
    if n == 60 {
        (AmountKind::Status, AmountSubtype::CurrentAvailable)
    } else
    if n == 61 {
        (AmountKind::Status, AmountSubtype::AverageCurrentAvailableMtd)
    } else
    if n == 62 {
        (AmountKind::Status, AmountSubtype::AverageCurrentAvailableYtd)
    } else
    if n == 63 {
        (AmountKind::Status, AmountSubtype::TotalFloat)
    } else
    if n == 65 {
        (AmountKind::Status, AmountSubtype::TargetBalance)
    } else
    if n == 66 {
        (AmountKind::Status, AmountSubtype::AdjustedBalance)
    } else
    if n == 67 {
        (AmountKind::Status, AmountSubtype::AdjustedBalanceMtd)
    } else
    if n == 68 {
        (AmountKind::Status, AmountSubtype::AdjustedBalanceYtd)
    } else
    if n == 70 {
        (AmountKind::Status, AmountSubtype::ZeroDayFloat)
    } else
    if n == 72 {
        (AmountKind::Status, AmountSubtype::OneDayFloat)
    } else
    if n == 73 {
        (AmountKind::Status, AmountSubtype::FloatAdjustment)
    } else
    if n == 74 {
        (AmountKind::Status, AmountSubtype::TwoOrMoreDaysFloat)
    } else
    if n == 75 {
        (AmountKind::Status, AmountSubtype::ThreeOrMoreDaysFloat)
    } else
    if n == 76 {
        (AmountKind::Status, AmountSubtype::AdjustmentToBalances)
    } else
    if n == 77 {
        (AmountKind::Status, AmountSubtype::AverageAdjustmentToBalancesMtd)
    } else
    if n == 78 {
        (AmountKind::Status, AmountSubtype::AverageAdjustmentToBalancesYtd)
    } else
    if n == 79 {
        (AmountKind::Status, AmountSubtype::FourDayFloat)
    } else
    if n == 80 {
        (AmountKind::Status, AmountSubtype::FiveDayFloat)
    } else
    if n == 81 {
        (AmountKind::Status, AmountSubtype::SixDayFloat)
    } else
    if n == 82 {
        (AmountKind::Status, AmountSubtype::Average1DayFloatMtd)
    } else
    if n == 83 {
        (AmountKind::Status, AmountSubtype::Average1DayFloatYtd)
    } else
    if n == 84 {
        (AmountKind::Status, AmountSubtype::Average2DayFloatMtd)
    } else
    if n == 85 {
        (AmountKind::Status, AmountSubtype::Average2DayFloatYtd)
    } else
    if n == 86 {
        (AmountKind::Status, AmountSubtype::TransferCalculation)
    } else
    if n == 100 {
        (AmountKind::CreditSummary, AmountSubtype::TotalCredits)
    } else
    if n == 101 {
        (AmountKind::CreditSummary, AmountSubtype::TotalCreditAmountMtd)
    } else
    if n == 105 {
        (AmountKind::CreditSummary, AmountSubtype::CreditsNotDetailed)
    } else
    if n == 106 {
        (AmountKind::CreditSummary, AmountSubtype::DepositsSubjectToFloat)
    } else
    if n == 107 {
        (AmountKind::CreditSummary, AmountSubtype::TotalAdjustmentCreditsYtd)
    } else
    if n == 109 {
        (AmountKind::CreditSummary, AmountSubtype::CurrentDayTotalLockboxDeposits)
    } else
    if n == 110 {
        (AmountKind::CreditSummary, AmountSubtype::TotalLockboxDeposits)
    } else
    if n == 120 {
        (AmountKind::CreditSummary, AmountSubtype::EdiTransactionCredit)
    } else
    if n == 130 {
        (AmountKind::CreditSummary, AmountSubtype::TotalConcentrationCredits)
    } else
    if n == 131 {
        (AmountKind::CreditSummary, AmountSubtype::TotalDtcCredits)
    } else
    if n == 140 {
        (AmountKind::CreditSummary, AmountSubtype::TotalAchCredits)
    } else
    if n == 146 {
        (AmountKind::CreditSummary, AmountSubtype::TotalBankCardDeposits)
    } else
    if n == 150 {
        (AmountKind::CreditSummary, AmountSubtype::TotalPreauthorizedPaymentCredits)
    } else
    if n == 160 {
        (AmountKind::CreditSummary, AmountSubtype::TotalAchDisbursingFundingCredits)
    } else
    if n == 162 {
        (AmountKind::CreditSummary, AmountSubtype::CorporateTradePaymentSettlement)
    } else
    if n == 163 {
        (AmountKind::CreditSummary, AmountSubtype::CorporateTradePaymentCredits)
    } else
    if n == 167 {
        (AmountKind::CreditSummary, AmountSubtype::AchSettlementCredits)
    } else
    if n == 170 {
        (AmountKind::CreditSummary, AmountSubtype::TotalOtherCheckDeposits)
    } else
    if n == 178 {
        (AmountKind::CreditSummary, AmountSubtype::ListPostCredits)
    } else
    if n == 180 {
        (AmountKind::CreditSummary, AmountSubtype::TotalLoanProceeds)
    } else
    if n == 182 {
        (AmountKind::CreditSummary, AmountSubtype::TotalBankPreparedDeposits)
    } else
    if n == 185 {
        (AmountKind::CreditSummary, AmountSubtype::TotalMiscellaneousDeposits)
    } else
    if n == 186 {
        (AmountKind::CreditSummary, AmountSubtype::TotalCashLetterCredits)
    } else
    if n == 188 {
        (AmountKind::CreditSummary, AmountSubtype::TotalCashLetterAdjustments)
    } else
    if n == 190 {
        (AmountKind::CreditSummary, AmountSubtype::TotalIncomingMoneyTransfers)
    } else
    if n == 200 {
        (AmountKind::CreditSummary, AmountSubtype::TotalAutomaticTransferCredits)
    } else
    if n == 205 {
        (AmountKind::CreditSummary, AmountSubtype::TotalBookTransferCredits)
    } else
    if n == 207 {
        (AmountKind::CreditSummary, AmountSubtype::TotalInternationalMoneyTransferCredits)
    } else
    if n == 210 {
        (AmountKind::CreditSummary, AmountSubtype::TotalInternationalCredits)
    } else
    if n == 215 {
        (AmountKind::CreditSummary, AmountSubtype::TotalLettersOfCredit)
    } else
    if n == 230 {
        (AmountKind::CreditSummary, AmountSubtype::TotalSecurityCredits)
    } else
    if n == 231 {
        (AmountKind::CreditSummary, AmountSubtype::TotalCollectionCredits)
    } else
    if n == 239 {
        (AmountKind::CreditSummary, AmountSubtype::TotalBankersAcceptanceCredits)
    } else
    if n == 245 {
        (AmountKind::CreditSummary, AmountSubtype::MonthlyDividends)
    } else
    if n == 250 {
        (AmountKind::CreditSummary, AmountSubtype::TotalChecksPostedAndReturned)
    } else
    if n == 251 {
        (AmountKind::CreditSummary, AmountSubtype::TotalDebitReversals)
    } else
    if n == 256 {
        (AmountKind::CreditSummary, AmountSubtype::TotalAchReturnItems)
    } else
    if n == 260 {
        (AmountKind::CreditSummary, AmountSubtype::TotalRejectedCredits)
    } else
    if n == 270 {
        (AmountKind::CreditSummary, AmountSubtype::TotalZbaCredits)
    } else
    if n == 271 {
        (AmountKind::CreditSummary, AmountSubtype::NetZeroBalanceAmount)
    } else
    if n == 280 {
        (AmountKind::CreditSummary, AmountSubtype::TotalControlledDisbursingCredits)
    } else
    if n == 285 {
        (AmountKind::CreditSummary, AmountSubtype::TotalDtcDisbursingCredits)
    } else
    if n == 294 {
        (AmountKind::CreditSummary, AmountSubtype::TotalAtmCredits)
    } else {
        (AmountKind::Unknown, AmountSubtype::Unknown)
    }
}

pub open spec fn amount_class_mid_spec(n: u16) -> (AmountKind, AmountSubtype) {
    if n == 302 {
        (AmountKind::CreditSummary, AmountSubtype::CorrespondentBankDeposit)
    } else
    if n == 303 {
        (AmountKind::CreditSummary, AmountSubtype::TotalWireTransfersInFF)
    } else
    if n == 304 {
        (AmountKind::CreditSummary, AmountSubtype::TotalWireTransfersInCHF)
    } else
    if n == 305 {
        (AmountKind::CreditSummary, AmountSubtype::TotalFedFundsSold)
    } else
    if n == 307 {
        (AmountKind::CreditSummary, AmountSubtype::TotalTrustCredits)
    } else
    if n == 309 {
        (AmountKind::CreditSummary, AmountSubtype::TotalValueDatedFunds)
    } else
    if n == 310 {
        (AmountKind::CreditSummary, AmountSubtype::TotalCommercialDeposits)
    } else
    if n == 315 {
        (AmountKind::CreditSummary, AmountSubtype::TotalInternationalCreditsFf)
    } else
    if n == 316 {
        (AmountKind::CreditSummary, AmountSubtype::TotalInternationalCreditsChf)
    } else
    if n == 318 {
        (AmountKind::CreditSummary, AmountSubtype::TotalForeignCheckPurchased)
    } else
    if n == 319 {
        (AmountKind::CreditSummary, AmountSubtype::LateDeposit)
    } else
    if n == 320 {
        (AmountKind::CreditSummary, AmountSubtype::TotalSecuritiesSoldFf)
    } else
    if n == 321 {
        (AmountKind::CreditSummary, AmountSubtype::TotalSecuritiesSoldChf)
    } else
    if n == 324 {
        (AmountKind::CreditSummary, AmountSubtype::TotalSecuritiesMaturedFf)
    } else
    if n == 325 {
        (AmountKind::CreditSummary, AmountSubtype::TotalSecuritiesMaturedChf)
    } else
    if n == 326 {
        (AmountKind::CreditSummary, AmountSubtype::TotalSecuritiesInterest)
    } else
    if n == 327 {
        (AmountKind::CreditSummary, AmountSubtype::TotalSecuritiesMatured)
    } else
    if n == 328 {
        (AmountKind::CreditSummary, AmountSubtype::TotalSecuritiesInterestFf)
    } else
    if n == 329 {
        (AmountKind::CreditSummary, AmountSubtype::TotalSecuritiesInterestChf)
    } else
    if n == 330 {
        (AmountKind::CreditSummary, AmountSubtype::TotalEscrowCredits)
    } else
    if n == 332 {
        (AmountKind::CreditSummary, AmountSubtype::TotalMiscellaneousSecuritiesCreditsFf)
    } else
    if n == 336 {
        (AmountKind::CreditSummary, AmountSubtype::TotalMiscellaneousSecuritiesCreditsChf)
    } else
    if n == 338 {
        (AmountKind::CreditSummary, AmountSubtype::TotalSecuritiesSold)
    } else
    if n == 340 {
        (AmountKind::CreditSummary, AmountSubtype::TotalBrokerDeposits)
    } else
    if n == 341 {
        (AmountKind::CreditSummary, AmountSubtype::TotalBrokerDepositsFf)
    } else
    if n == 343 {
        (AmountKind::CreditSummary, AmountSubtype::TotalBrokerDepositsChf)
    } else
    if n == 350 {
        (AmountKind::CreditSummary, AmountSubtype::InvestmentSold)
    } else
    if n == 352 {
        (AmountKind::CreditSummary, AmountSubtype::TotalCashCenterCredits)
    } else
    if n == 355 {
        (AmountKind::CreditSummary, AmountSubtype::InvestmentInterest)
    } else
    if n == 356 {
        (AmountKind::CreditSummary, AmountSubtype::TotalCreditAdjustment)
    } else
    if n == 360 {
        (AmountKind::CreditSummary, AmountSubtype::TotalCreditsLessWireTransferAndReturnedChecks)
    } else
    if n == 361 {
        (AmountKind::CreditSummary, AmountSubtype::GrandTotalCreditsLessGrandTotalDebits)
    } else
    if n == 370 {
        (AmountKind::CreditSummary, AmountSubtype::TotalBackValueCredits)
    } else
    if n == 385 {
        (AmountKind::CreditSummary, AmountSubtype::TotalUniversalCredits)
    } else
    if n == 389 {
        (AmountKind::CreditSummary, AmountSubtype::TotalFreightPaymentCredits)
    } else
    if n == 390 {
        (AmountKind::CreditSummary, AmountSubtype::TotalMiscellaneousCredits)
    } else
    if n == 400 {
        (AmountKind::DebitSummary, AmountSubtype::TotalDebits)
    } else
    if n == 401 {
        (AmountKind::DebitSummary, AmountSubtype::TotalDebitAmountMtd)
    } else
    if n == 403 {
        (AmountKind::DebitSummary, AmountSubtype::TodaysTotalDebits)
    } else
    if n == 405 {
        (AmountKind::DebitSummary, AmountSubtype::TotalDebitLessWireTransfersAndChargeBacks)
    } else
    if n == 406 {
        (AmountKind::DebitSummary, AmountSubtype::DebitsNotDetailed)
    } else
    if n == 410 {
        (AmountKind::DebitSummary, AmountSubtype::TotalYtdAdjustment)
    } else
    if n == 412 {
        (AmountKind::DebitSummary, AmountSubtype::TotalDebitsExcludingReturnedItems)
    } else
    if n == 416 {
        (AmountKind::DebitSummary, AmountSubtype::TotalLockboxDebits)
    } else
    if n == 420 {
        (AmountKind::DebitSummary, AmountSubtype::EdiTransactionDebits)
    } else
    if n == 430 {
        (AmountKind::DebitSummary, AmountSubtype::TotalPayableThroughDrafts)
    } else
    if n == 446 {
        (AmountKind::DebitSummary, AmountSubtype::TotalAchDisbursementFundingDebits)
    } else
    if n == 450 {
        (AmountKind::DebitSummary, AmountSubtype::TotalAchDebits)
    } else
    if n == 463 {
        (AmountKind::DebitSummary, AmountSubtype::CorporateTradePaymentDebits)
    } else
    if n == 465 {
        (AmountKind::DebitSummary, AmountSubtype::CorporateTradePaymentSettlement)
    } else
    if n == 467 {
        (AmountKind::DebitSummary, AmountSubtype::AchSettlementDebits)
    } else
    if n == 470 {
        (AmountKind::DebitSummary, AmountSubtype::TotalCheckPaid)
    } else
    if n == 471 {
        (AmountKind::DebitSummary, AmountSubtype::TotalCheckPaidCumulativeMtd)
    } else
    if n == 478 {
        (AmountKind::DebitSummary, AmountSubtype::ListPostDebits)
    } else
    if n == 480 {
        (AmountKind::DebitSummary, AmountSubtype::TotalLoanPayments)
    } else
    if n == 482 {
        (AmountKind::DebitSummary, AmountSubtype::TotalBankOriginatedDebits)
    } else
    if n == 486 {
        (AmountKind::DebitSummary, AmountSubtype::TotalCashLetterDebits)
    } else
    if n == 490 {
        (AmountKind::DebitSummary, AmountSubtype::TotalOutgoingMoneyTransfers)
    } else {
        (AmountKind::Unknown, AmountSubtype::Unknown)
    }
}

fn amount_class_mid(n: u16) -> (r: (AmountKind, AmountSubtype))
    ensures
        r == amount_class_mid_spec(n),
{
    if n == 302 {
        (AmountKind::CreditSummary, AmountSubtype::CorrespondentBankDeposit)
    } else
    if n == 303 {
        (AmountKind::CreditSummary, AmountSubtype::TotalWireTransfersInFF)
    } else
    if n == 304 {
        (AmountKind::CreditSummary, AmountSubtype::TotalWireTransfersInCHF)
    } else
    if n == 305 {
        (AmountKind::CreditSummary, AmountSubtype::TotalFedFundsSold)
    } else
    if n == 307 {
        (AmountKind::CreditSummary, AmountSubtype::TotalTrustCredits)
    } else
    if n == 309 {
        (AmountKind::CreditSummary, AmountSubtype::TotalValueDatedFunds)
    } else
    if n == 310 {
        (AmountKind::CreditSummary, AmountSubtype::TotalCommercialDeposits)
    } else
    if n == 315 {
        (AmountKind::CreditSummary, AmountSubtype::TotalInternationalCreditsFf)
    } else
    if n == 316 {
        (AmountKind::CreditSummary, AmountSubtype::TotalInternationalCreditsChf)
    } else
    if n == 318 {
        (AmountKind::CreditSummary, AmountSubtype::TotalForeignCheckPurchased)
    } else
    if n == 319 {
        (AmountKind::CreditSummary, AmountSubtype::LateDeposit)
    } else
    if n == 320 {
        (AmountKind::CreditSummary, AmountSubtype::TotalSecuritiesSoldFf)
    } else
    if n == 321 {
        (AmountKind::CreditSummary, AmountSubtype::TotalSecuritiesSoldChf)
    } else
    if n == 324 {
        (AmountKind::CreditSummary, AmountSubtype::TotalSecuritiesMaturedFf)
    } else
    if n == 325 {
        (AmountKind::CreditSummary, AmountSubtype::TotalSecuritiesMaturedChf)
    } else
    if n == 326 {
        (AmountKind::CreditSummary, AmountSubtype::TotalSecuritiesInterest)
    } else
    if n == 327 {
        (AmountKind::CreditSummary, AmountSubtype::TotalSecuritiesMatured)
    } else
    if n == 328 {
        (AmountKind::CreditSummary, AmountSubtype::TotalSecuritiesInterestFf)
    } else
    if n == 329 {
        (AmountKind::CreditSummary, AmountSubtype::TotalSecuritiesInterestChf)
    } else
    if n == 330 {
        (AmountKind::CreditSummary, AmountSubtype::TotalEscrowCredits)
    } else
    if n == 332 {
        (AmountKind::CreditSummary, AmountSubtype::TotalMiscellaneousSecuritiesCreditsFf)
    } else
    if n == 336 {
        (AmountKind::CreditSummary, AmountSubtype::TotalMiscellaneousSecuritiesCreditsChf)
    } else
    if n == 338 {
        (AmountKind::CreditSummary, AmountSubtype::TotalSecuritiesSold)
    } else
    if n == 340 {
        (AmountKind::CreditSummary, AmountSubtype::TotalBrokerDeposits)
    } else
    if n == 341 {
        (AmountKind::CreditSummary, AmountSubtype::TotalBrokerDepositsFf)
    } else
    if n == 343 {
        (AmountKind::CreditSummary, AmountSubtype::TotalBrokerDepositsChf)
    } else
    if n == 350 {
        (AmountKind::CreditSummary, AmountSubtype::InvestmentSold)
    } else
    if n == 352 {
        (AmountKind::CreditSummary, AmountSubtype::TotalCashCenterCredits)
    } else
    if n == 355 {
        (AmountKind::CreditSummary, AmountSubtype::InvestmentInterest)
    } else
    if n == 356 {
        (AmountKind::CreditSummary, AmountSubtype::TotalCreditAdjustment)
    } else
    if n == 360 {
        (AmountKind::CreditSummary, AmountSubtype::TotalCreditsLessWireTransferAndReturnedChecks)
    } else
    if n == 361 {
        (AmountKind::CreditSummary, AmountSubtype::GrandTotalCreditsLessGrandTotalDebits)
    } else
    if n == 370 {
        (AmountKind::CreditSummary, AmountSubtype::TotalBackValueCredits)
    } else
    if n == 385 {
        (AmountKind::CreditSummary, AmountSubtype::TotalUniversalCredits)
    } else
    if n == 389 {
        (AmountKind::CreditSummary, AmountSubtype::TotalFreightPaymentCredits)
    } else
    if n == 390 {
        (AmountKind::CreditSummary, AmountSubtype::TotalMiscellaneousCredits)
    } else
    if n == 400 {
        (AmountKind::DebitSummary, AmountSubtype::TotalDebits)
    } else
    if n == 401 {
        (AmountKind::DebitSummary, AmountSubtype::TotalDebitAmountMtd)
    } else
    if n == 403 {
        (AmountKind::DebitSummary, AmountSubtype::TodaysTotalDebits)
    } else
    if n == 405 {
        (AmountKind::DebitSummary, AmountSubtype::TotalDebitLessWireTransfersAndChargeBacks)
    } else
    if n == 406 {
        (AmountKind::DebitSummary, AmountSubtype::DebitsNotDetailed)
    } else
    if n == 410 {
        (AmountKind::DebitSummary, AmountSubtype::TotalYtdAdjustment)
    } else
    if n == 412 {
        (AmountKind::DebitSummary, AmountSubtype::TotalDebitsExcludingReturnedItems)
    } else
    if n == 416 {
        (AmountKind::DebitSummary, AmountSubtype::TotalLockboxDebits)
    } else
    if n == 420 {
        (AmountKind::DebitSummary, AmountSubtype::EdiTransactionDebits)
    } else
    if n == 430 {
        (AmountKind::DebitSummary, AmountSubtype::TotalPayableThroughDrafts)
    } else
    if n == 446 {
        (AmountKind::DebitSummary, AmountSubtype::TotalAchDisbursementFundingDebits)
    } else
    if n == 450 {
        (AmountKind::DebitSummary, AmountSubtype::TotalAchDebits)
    } else
    if n == 463 {
        (AmountKind::DebitSummary, AmountSubtype::CorporateTradePaymentDebits)
    } else
    if n == 465 {
        (AmountKind::DebitSummary, AmountSubtype::CorporateTradePaymentSettlement)
    } else
    if n == 467 {
        (AmountKind::DebitSummary, AmountSubtype::AchSettlementDebits)
    } else
    if n == 470 {
        (AmountKind::DebitSummary, AmountSubtype::TotalCheckPaid)
    } else
    if n == 471 {
        (AmountKind::DebitSummary, AmountSubtype::TotalCheckPaidCumulativeMtd)
    } else
    if n == 478 {
        (AmountKind::DebitSummary, AmountSubtype::ListPostDebits)
    } else
    if n == 480 {
        (AmountKind::DebitSummary, AmountSubtype::TotalLoanPayments)
    } else
    if n == 482 {
        (AmountKind::DebitSummary, AmountSubtype::TotalBankOriginatedDebits)
    } else
    if n == 486 {
        (AmountKind::DebitSummary, AmountSubtype::TotalCashLetterDebits)
    } else
    if n == 490 {
        (AmountKind::DebitSummary, AmountSubtype::TotalOutgoingMoneyTransfers)
    } else {
        (AmountKind::Unknown, AmountSubtype::Unknown)
    }
}

pub open spec fn amount_class_high_spec(n: u16) -> (AmountKind, AmountSubtype) {
    if n == 500 {
        (AmountKind::DebitSummary, AmountSubtype::TotalAutomaticTransferDebits)
    } else
    if n == 505 {
        (AmountKind::DebitSummary, AmountSubtype::TotalBookTransferDebits)
    } else
    if n == 507 {
        (AmountKind::DebitSummary, AmountSubtype::TotalInternationalMoneyTransferDebits)
    } else
    if n == 510 {
        (AmountKind::DebitSummary, AmountSubtype::TotalInternationalDebits)
    } else
    if n == 515 {
        (AmountKind::DebitSummary, AmountSubtype::TotalLettersOfCredit)
    } else
    if n == 530 {
        (AmountKind::DebitSummary, AmountSubtype::TotalSecurityDebits)
    } else
    if n == 532 {
        (AmountKind::DebitSummary, AmountSubtype::TotalAmountOfSecuritiesPurchased)
    } else
    if n == 534 {
        (AmountKind::DebitSummary, AmountSubtype::TotalMiscellaneousSecuritiesDbFf)
    } else
    if n == 536 {
        (AmountKind::DebitSummary, AmountSubtype::TotalMiscellaneousSecuritiesDebitChf)
    } else
    if n == 537 {
        (AmountKind::DebitSummary, AmountSubtype::TotalCollectionDebit)
    } else
    if n == 539 {
        (AmountKind::DebitSummary, AmountSubtype::TotalBankersAcceptancesDebit)
    } else
    if n == 550 {
        (AmountKind::DebitSummary, AmountSubtype::TotalDepositedItemsReturned)
    } else
    if n == 551 {
        (AmountKind::DebitSummary, AmountSubtype::TotalCreditReversals)
    } else
    if n == 556 {
        (AmountKind::DebitSummary, AmountSubtype::TotalAchReturnItems)
    } else
    if n == 560 {
        (AmountKind::DebitSummary, AmountSubtype::TotalRejectedDebits)
    } else
    if n == 570 {
        (AmountKind::DebitSummary, AmountSubtype::TotalZbaDebits)
    } else
    if n == 580 {
        (AmountKind::DebitSummary, AmountSubtype::TotalControlledDisbursingDebits)
    } else
    if n == 583 {
        (AmountKind::DebitSummary, AmountSubtype::TotalDisbursingChecksPaidEarlyAmount)
    } else
    if n == 584 {
        (AmountKind::DebitSummary, AmountSubtype::TotalDisbursingChecksPaidLaterAmount)
    } else
    if n == 585 {
        (AmountKind::DebitSummary, AmountSubtype::DisbursingFundingRequirement)
    } else
    if n == 586 {
        (AmountKind::DebitSummary, AmountSubtype::FrbPresentmentEstimate)
    } else
    if n == 587 {
        (AmountKind::DebitSummary, AmountSubtype::LateDebitsAfterNotification)
    } else
    if n == 588 {
        (AmountKind::DebitSummary, AmountSubtype::TotalDisbursingChecksPaidLastAmount)
    } else
    if n == 590 {
        (AmountKind::DebitSummary, AmountSubtype::TotalDtcDebits)
    } else
    if n == 594 {
        (AmountKind::DebitSummary, AmountSubtype::TotalAtmDebits)
    } else
    if n == 596 {
        (AmountKind::DebitSummary, AmountSubtype::TotalAprDebits)
    } else
    if n == 601 {
        (AmountKind::DebitSummary, AmountSubtype::EstimatedTotalDisbursement)
    } else
    if n == 602 {
        (AmountKind::DebitSummary, AmountSubtype::AdjustedTotalDisbursement)
    } else
    if n == 610 {
        (AmountKind::DebitSummary, AmountSubtype::TotalFundsRequired)
    } else
    if n == 611 {
        (AmountKind::DebitSummary, AmountSubtype::TotalWireTransfersOutChf)
    } else
    if n == 612 {
        (AmountKind::DebitSummary, AmountSubtype::TotalWireTransfersOutFf)
    } else
    if n == 613 {
        (AmountKind::DebitSummary, AmountSubtype::TotalInternationalDebitChf)
    } else
    if n == 614 {
        (AmountKind::DebitSummary, AmountSubtype::TotalInternationalDebitFf)
    } else
    if n == 615 {
        (AmountKind::DebitSummary, AmountSubtype::TotalFederalReserveBankCommercialBankDebit)
    } else
    if n == 617 {
        (AmountKind::DebitSummary, AmountSubtype::TotalSecuritiesPurchasedChf)
    } else
    if n == 618 {
        (AmountKind::DebitSummary, AmountSubtype::TotalSecuritiesPurchasedFf)
    } else
    if n == 621 {
        (AmountKind::DebitSummary, AmountSubtype::TotalBrokerDebitsChf)
    } else
    if n == 623 {
        (AmountKind::DebitSummary, AmountSubtype::TotalBrokerDebitsFf)
    } else
    if n == 625 {
        (AmountKind::DebitSummary, AmountSubtype::TotalBrokerDebits)
    } else
    if n == 626 {
        (AmountKind::DebitSummary, AmountSubtype::TotalFedFundsPurchased)
    } else
    if n == 628 {
        (AmountKind::DebitSummary, AmountSubtype::TotalCashCenterDebits)
    } else
    if n == 630 {
        (AmountKind::DebitSummary, AmountSubtype::TotalDebitAdjustments)
    } else
    if n == 632 {
        (AmountKind::DebitSummary, AmountSubtype::TotalTrustDebits)
    } else
    if n == 640 {
        (AmountKind::DebitSummary, AmountSubtype::TotalEscrowDebits)
    } else
    if n == 646 {
        (AmountKind::DebitSummary, AmountSubtype::TransferCalculationDebit)
    } else
    if n == 650 {
        (AmountKind::DebitSummary, AmountSubtype::InvestmentsPurchased)
    } else
    if n == 655 {
        (AmountKind::DebitSummary, AmountSubtype::TotalInvestmentInterestDebits)
    } else
    if n == 665 {
        (AmountKind::DebitSummary, AmountSubtype::InterceptDebits)
    } else
    if n == 670 {
        (AmountKind::DebitSummary, AmountSubtype::TotalBackValueDebits)
    } else
    if n == 685 {
        (AmountKind::DebitSummary, AmountSubtype::TotalUniversalDebits)
    } else
    if n == 689 {
        (AmountKind::DebitSummary, AmountSubtype::FrbFreightPaymentDebits)
    } else
    if n == 690 {
        (AmountKind::DebitSummary, AmountSubtype::TotalMiscellaneousDebits)
    } else
    if n == 701 {
        (AmountKind::Status, AmountSubtype::PrincipalLoanBalance)
    } else
    if n == 703 {
        (AmountKind::Status, AmountSubtype::AvailableCommitmentAmount)
    } else
    if n == 705 {
        (AmountKind::Status, AmountSubtype::PaymentAmountDue)
    } else
    if n == 707 {
        (AmountKind::Status, AmountSubtype::PrincipalAmountPastDue)
    } else
    if n == 709 {
        (AmountKind::Status, AmountSubtype::InterestAmountPastDue)
    } else
    if n == 720 {
        (AmountKind::CreditSummary, AmountSubtype::TotalLoanPayment)
    } else
    if n == 760 {
        (AmountKind::DebitSummary, AmountSubtype::LoanDisbursement)
    } else {
        if 900 <= n && n <= 919 {
            (AmountKind::Status, AmountSubtype::CustomStatus)
        } else if 920 <= n && n <= 959 {
            (AmountKind::CreditSummary, AmountSubtype::CustomCreditSummary)
        } else if 960 <= n && n <= 999 {
            (AmountKind::DebitSummary, AmountSubtype::CustomDebitSummary)
        } else {
            (AmountKind::Unknown, AmountSubtype::Unknown)
        }
    }
}

fn amount_class_high(n: u16) -> (r: (AmountKind, AmountSubtype))
    ensures
        r == amount_class_high_spec(n),
{
    if n == 500 {
        (AmountKind::DebitSummary, AmountSubtype::TotalAutomaticTransferDebits)
    } else
    if n == 505 {
        (AmountKind::DebitSummary, AmountSubtype::TotalBookTransferDebits)
    } else
    if n == 507 {
        (AmountKind::DebitSummary, AmountSubtype::TotalInternationalMoneyTransferDebits)
    } else
    if n == 510 {
        (AmountKind::DebitSummary, AmountSubtype::TotalInternationalDebits)
    } else
    if n == 515 {
        (AmountKind::DebitSummary, AmountSubtype::TotalLettersOfCredit)
    } else
    if n == 530 {
        (AmountKind::DebitSummary, AmountSubtype::TotalSecurityDebits)
    } else
    if n == 532 {
        (AmountKind::DebitSummary, AmountSubtype::TotalAmountOfSecuritiesPurchased)
    } else
    if n == 534 {
        (AmountKind::DebitSummary, AmountSubtype::TotalMiscellaneousSecuritiesDbFf)
    } else
    if n == 536 {
        (AmountKind::DebitSummary, AmountSubtype::TotalMiscellaneousSecuritiesDebitChf)
    } else
    if n == 537 {
        (AmountKind::DebitSummary, AmountSubtype::TotalCollectionDebit)
    } else
    if n == 539 {
        (AmountKind::DebitSummary, AmountSubtype::TotalBankersAcceptancesDebit)
    } else
    if n == 550 {
        (AmountKind::DebitSummary, AmountSubtype::TotalDepositedItemsReturned)
    } else
    if n == 551 {
        (AmountKind::DebitSummary, AmountSubtype::TotalCreditReversals)
    } else
    if n == 556 {
        (AmountKind::DebitSummary, AmountSubtype::TotalAchReturnItems)
    } else
    if n == 560 {
        (AmountKind::DebitSummary, AmountSubtype::TotalRejectedDebits)
    } else
    if n == 570 {
        (AmountKind::DebitSummary, AmountSubtype::TotalZbaDebits)
    } else
    if n == 580 {
        (AmountKind::DebitSummary, AmountSubtype::TotalControlledDisbursingDebits)
    } else
    if n == 583 {
        (AmountKind::DebitSummary, AmountSubtype::TotalDisbursingChecksPaidEarlyAmount)
    } else
    if n == 584 {
        (AmountKind::DebitSummary, AmountSubtype::TotalDisbursingChecksPaidLaterAmount)
    } else
    if n == 585 {
        (AmountKind::DebitSummary, AmountSubtype::DisbursingFundingRequirement)
    } else
    if n == 586 {
        (AmountKind::DebitSummary, AmountSubtype::FrbPresentmentEstimate)
    } else
    if n == 587 {
        (AmountKind::DebitSummary, AmountSubtype::LateDebitsAfterNotification)
    } else
    if n == 588 {
        (AmountKind::DebitSummary, AmountSubtype::TotalDisbursingChecksPaidLastAmount)
    } else
    if n == 590 {
        (AmountKind::DebitSummary, AmountSubtype::TotalDtcDebits)
    } else
    if n == 594 {
        (AmountKind::DebitSummary, AmountSubtype::TotalAtmDebits)
    } else
    if n == 596 {
        (AmountKind::DebitSummary, AmountSubtype::TotalAprDebits)
    } else
    if n == 601 {
        (AmountKind::DebitSummary, AmountSubtype::EstimatedTotalDisbursement)
    } else
    if n == 602 {
        (AmountKind::DebitSummary, AmountSubtype::AdjustedTotalDisbursement)
    } else
    if n == 610 {
        (AmountKind::DebitSummary, AmountSubtype::TotalFundsRequired)
    } else
    if n == 611 {
        (AmountKind::DebitSummary, AmountSubtype::TotalWireTransfersOutChf)
    } else
    if n == 612 {
        (AmountKind::DebitSummary, AmountSubtype::TotalWireTransfersOutFf)
    } else
    if n == 613 {
        (AmountKind::DebitSummary, AmountSubtype::TotalInternationalDebitChf)
    } else
    if n == 614 {
        (AmountKind::DebitSummary, AmountSubtype::TotalInternationalDebitFf)
    } else
    if n == 615 {
        (AmountKind::DebitSummary, AmountSubtype::TotalFederalReserveBankCommercialBankDebit)
    } else
    if n == 617 {
        (AmountKind::DebitSummary, AmountSubtype::TotalSecuritiesPurchasedChf)
    } else
    if n == 618 {
        (AmountKind::DebitSummary, AmountSubtype::TotalSecuritiesPurchasedFf)
    } else
    if n == 621 {
        (AmountKind::DebitSummary, AmountSubtype::TotalBrokerDebitsChf)
    } else
    if n == 623 {
        (AmountKind::DebitSummary, AmountSubtype::TotalBrokerDebitsFf)
    } else
    if n == 625 {
        (AmountKind::DebitSummary, AmountSubtype::TotalBrokerDebits)
    } else
    if n == 626 {
        (AmountKind::DebitSummary, AmountSubtype::TotalFedFundsPurchased)
    } else
    if n == 628 {
        (AmountKind::DebitSummary, AmountSubtype::TotalCashCenterDebits)
    } else
    if n == 630 {
        (AmountKind::DebitSummary, AmountSubtype::TotalDebitAdjustments)
    } else
    if n == 632 {
        (AmountKind::DebitSummary, AmountSubtype::TotalTrustDebits)
    } else
    if n == 640 {
        (AmountKind::DebitSummary, AmountSubtype::TotalEscrowDebits)
    } else
    if n == 646 {
        (AmountKind::DebitSummary, AmountSubtype::TransferCalculationDebit)
    } else
    if n == 650 {
        (AmountKind::DebitSummary, AmountSubtype::InvestmentsPurchased)
    } else
    if n == 655 {
        (AmountKind::DebitSummary, AmountSubtype::TotalInvestmentInterestDebits)
    } else
    if n == 665 {
        (AmountKind::DebitSummary, AmountSubtype::InterceptDebits)
    } else
    if n == 670 {
        (AmountKind::DebitSummary, AmountSubtype::TotalBackValueDebits)
    } else
    if n == 685 {
        (AmountKind::DebitSummary, AmountSubtype::TotalUniversalDebits)
    } else
    if n == 689 {
        (AmountKind::DebitSummary, AmountSubtype::FrbFreightPaymentDebits)
    } else
    if n == 690 {
        (AmountKind::DebitSummary, AmountSubtype::TotalMiscellaneousDebits)
    } else
    if n == 701 {
        (AmountKind::Status, AmountSubtype::PrincipalLoanBalance)
    } else
    if n == 703 {
        (AmountKind::Status, AmountSubtype::AvailableCommitmentAmount)
    } else
    if n == 705 {
        (AmountKind::Status, AmountSubtype::PaymentAmountDue)
    } else
    if n == 707 {
        (AmountKind::Status, AmountSubtype::PrincipalAmountPastDue)
    } else
    if n == 709 {
        (AmountKind::Status, AmountSubtype::InterestAmountPastDue)
    } else
    if n == 720 {
        (AmountKind::CreditSummary, AmountSubtype::TotalLoanPayment)
    } else
    if n == 760 {
        (AmountKind::DebitSummary, AmountSubtype::LoanDisbursement)
    } else {
        if 900 <= n && n <= 919 {
            (AmountKind::Status, AmountSubtype::CustomStatus)
        } else if 920 <= n && n <= 959 {
            (AmountKind::CreditSummary, AmountSubtype::CustomCreditSummary)
        } else if 960 <= n && n <= 999 {
            (AmountKind::DebitSummary, AmountSubtype::CustomDebitSummary)
        } else {
            (AmountKind::Unknown, AmountSubtype::Unknown)
        }
    }
}

/// The role and classification of a three-digit numeric code.
pub open spec fn amount_class_of_num_spec(n: u16) -> (AmountKind, AmountSubtype) {
    if n < 300 {
        amount_class_low_spec(n)
    } else if n < 500 {
        amount_class_mid_spec(n)
    } else {
        amount_class_high_spec(n)
    }
}

/// The classification of a code that is not three digits: only the custom
/// numeric ranges still classify, through a plain integer parse.
pub open spec fn amount_fallback_spec(s: Seq<char>) -> (AmountKind, AmountSubtype) {
    match parse_signed_spec(s) {
        Some(v) => {
            if 900 <= v <= 919 {
                (AmountKind::Status, AmountSubtype::CustomStatus)
            } else if 920 <= v <= 959 {
                (AmountKind::CreditSummary, AmountSubtype::CustomCreditSummary)
            } else if 960 <= v <= 999 {
                (AmountKind::DebitSummary, AmountSubtype::CustomDebitSummary)
            } else {
                (AmountKind::Unknown, AmountSubtype::Unknown)
            }
        },
        None => (AmountKind::Unknown, AmountSubtype::Unknown),
    }
}

/// The role and classification a raw amount type code names.
pub open spec fn amount_class_spec(s: Seq<char>) -> (AmountKind, AmountSubtype) {
    match code_value_spec(s) {
        Some(n) => amount_class_of_num_spec(n),
        None => amount_fallback_spec(s),
    }
}

/// The classified type a raw amount type code names, carrying the code
/// itself.
pub open spec fn amount_type_spec(s: Seq<char>) -> AmountTypeS {
    let c = amount_class_spec(s);
    match c.0 {
        AmountKind::Status => AmountTypeS::Status(s, c.1),
        AmountKind::CreditSummary => AmountTypeS::CreditSummary(s, c.1),
        AmountKind::DebitSummary => AmountTypeS::DebitSummary(s, c.1),
        AmountKind::Unknown => AmountTypeS::Unknown(s, c.1),
    }
}

fn amount_fallback(s: &str) -> (r: (AmountKind, AmountSubtype))
    ensures
        r == amount_fallback_spec(s@),
{
    match crate::util::parse_plain_int(s) {
        Some(v) => {
            if 900 <= v && v <= 919 {
                (AmountKind::Status, AmountSubtype::CustomStatus)
            } else if 920 <= v && v <= 959 {
                (AmountKind::CreditSummary, AmountSubtype::CustomCreditSummary)
            } else if 960 <= v && v <= 999 {
                (AmountKind::DebitSummary, AmountSubtype::CustomDebitSummary)
            } else {
                (AmountKind::Unknown, AmountSubtype::Unknown)
            }
        },
        None => (AmountKind::Unknown, AmountSubtype::Unknown),
    }
}

/// The role and classification a raw amount type code names.
pub fn amount_class(s: &str) -> (r: (AmountKind, AmountSubtype))
    ensures
        r == amount_class_spec(s@),
{
    match crate::util::code_value(s) {
        Some(n) => {
            if n < 300 {
                amount_class_low(n)
            } else if n < 500 {
                amount_class_mid(n)
            } else {
                amount_class_high(n)
            }
        },
        None => amount_fallback(s),
    }
}

impl AmountType {
    /// Classifies an amount type code: the caller hands the code already
    /// normalized, as it stands in the record's field.
    pub fn parse(type_code: &str) -> (r: AmountType)
        ensures
            r@ == amount_type_spec(type_code@),
    {
        let code = type_code.to_owned();
        let class = amount_class(type_code);
        match class.0 {
            AmountKind::Status => AmountType::Status(code, class.1),
            AmountKind::CreditSummary => AmountType::CreditSummary(code, class.1),
            AmountKind::DebitSummary => AmountType::DebitSummary(code, class.1),
            AmountKind::Unknown => AmountType::Unknown(code, class.1),
        }
    }
}

/// Classification is a pure function of the code alone: two
/// classifications of the same code always agree.
pub proof fn lemma_amount_classification_idempotent(
    code: Seq<char>,
    a: AmountTypeS,
    b: AmountTypeS,
)
    requires
        a == amount_type_spec(code),
        b == amount_type_spec(code),
    ensures
        a == b,
{
}

/// A code in the documented custom numeric ranges that the table does not
/// list still classifies as custom-but-directional, never as fully
/// unknown.
#[verifier::rlimit(60)]
pub proof fn lemma_custom_amount_codes(code: Seq<char>)
    requires
        code_value_spec(code) is Some,
        900 <= code_value_spec(code)->0 <= 999,
    ensures
        900 <= code_value_spec(code)->0 <= 919 ==> amount_type_spec(code) == AmountTypeS::Status(
            code,
            AmountSubtype::CustomStatus,
        ),
        920 <= code_value_spec(code)->0 <= 959 ==> amount_type_spec(code)
            == AmountTypeS::CreditSummary(code, AmountSubtype::CustomCreditSummary),
        960 <= code_value_spec(code)->0 <= 999 ==> amount_type_spec(code)
            == AmountTypeS::DebitSummary(code, AmountSubtype::CustomDebitSummary),
{
}

/// A code that is not three digits, and that the plain integer parse
/// leaves outside the custom ranges or cannot read at all, classifies as
/// fully unknown.
pub proof fn lemma_unknown_amount_codes(code: Seq<char>)
    requires
        code_value_spec(code) is None,
        match parse_signed_spec(code) {
            Some(v) => !(900 <= v <= 999),
            None => true,
        },
    ensures
        amount_type_spec(code) == AmountTypeS::Unknown(code, AmountSubtype::Unknown),
{
}

/// The three-digit codes between the table's last entry and the custom
/// ranges classify as fully unknown.
#[verifier::rlimit(60)]
pub proof fn lemma_gap_amount_codes(code: Seq<char>)
    requires
        code_value_spec(code) is Some,
        761 <= code_value_spec(code)->0 <= 899,
    ensures
        amount_type_spec(code) == AmountTypeS::Unknown(code, AmountSubtype::Unknown),
{
}

} // verus!
