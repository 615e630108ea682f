//! One type for each peripheral of the device. A driver is made for a
//! peripheral by naming its type.
use vstd::prelude::*;

verus! {

/// The second hart.
pub struct HART1;

/// The core-local interruptor.
pub struct CLINT;

/// The watchdog timer.
pub struct WDT;

/// The first UART.
pub struct UART0;

/// The second UART.
pub struct UART1;

/// The general purpose timer.
pub struct GPTMR;

/// The true random number generator.
pub struct TRNG;

/// The DMA controller.
pub struct DMA;

/// The GPIO unit.
pub struct GPIO;

/// The PWM unit.
pub struct PWM;

/// The SPI controller.
pub struct SPI;

/// The two-wire controller.
pub struct TWI;

/// GPIO port 0.
pub struct PORT0;

/// GPIO port 1.
pub struct PORT1;

/// GPIO port 2.
pub struct PORT2;

/// GPIO port 3.
pub struct PORT3;

/// GPIO port 4.
pub struct PORT4;

/// GPIO port 5.
pub struct PORT5;

/// GPIO port 6.
pub struct PORT6;

/// GPIO port 7.
pub struct PORT7;

/// GPIO port 8.
pub struct PORT8;

/// GPIO port 9.
pub struct PORT9;

/// GPIO port 10.
pub struct PORT10;

/// GPIO port 11.
pub struct PORT11;

/// GPIO port 12.
pub struct PORT12;

/// GPIO port 13.
pub struct PORT13;

/// GPIO port 14.
pub struct PORT14;

/// GPIO port 15.
pub struct PORT15;

/// GPIO port 16.
pub struct PORT16;

/// GPIO port 17.
pub struct PORT17;

/// GPIO port 18.
pub struct PORT18;

/// GPIO port 19.
pub struct PORT19;

/// GPIO port 20.
pub struct PORT20;

/// GPIO port 21.
pub struct PORT21;

/// GPIO port 22.
pub struct PORT22;

/// GPIO port 23.
pub struct PORT23;

/// GPIO port 24.
pub struct PORT24;

/// GPIO port 25.
pub struct PORT25;

/// GPIO port 26.
pub struct PORT26;

/// GPIO port 27.
pub struct PORT27;

/// GPIO port 28.
pub struct PORT28;

/// GPIO port 29.
pub struct PORT29;

/// GPIO port 30.
pub struct PORT30;

/// GPIO port 31.
pub struct PORT31;

/// PWM channel 0.
pub struct PWMCHAN0;

/// PWM channel 1.
pub struct PWMCHAN1;

/// PWM channel 2.
pub struct PWMCHAN2;

/// PWM channel 3.
pub struct PWMCHAN3;

/// PWM channel 4.
pub struct PWMCHAN4;

/// PWM channel 5.
pub struct PWMCHAN5;

/// PWM channel 6.
pub struct PWMCHAN6;

/// PWM channel 7.
pub struct PWMCHAN7;

/// PWM channel 8.
pub struct PWMCHAN8;

/// PWM channel 9.
pub struct PWMCHAN9;

/// PWM channel 10.
pub struct PWMCHAN10;

/// PWM channel 11.
pub struct PWMCHAN11;

/// PWM channel 12.
pub struct PWMCHAN12;

/// PWM channel 13.
pub struct PWMCHAN13;

/// PWM channel 14.
pub struct PWMCHAN14;

/// PWM channel 15.
pub struct PWMCHAN15;

/// PWM channel 16.
pub struct PWMCHAN16;

/// PWM channel 17.
pub struct PWMCHAN17;

/// PWM channel 18.
pub struct PWMCHAN18;

/// PWM channel 19.
pub struct PWMCHAN19;

/// PWM channel 20.
pub struct PWMCHAN20;

/// PWM channel 21.
pub struct PWMCHAN21;

/// PWM channel 22.
pub struct PWMCHAN22;

/// PWM channel 23.
pub struct PWMCHAN23;

/// PWM channel 24.
pub struct PWMCHAN24;

/// PWM channel 25.
pub struct PWMCHAN25;

/// PWM channel 26.
pub struct PWMCHAN26;

/// PWM channel 27.
pub struct PWMCHAN27;

/// PWM channel 28.
pub struct PWMCHAN28;

/// PWM channel 29.
pub struct PWMCHAN29;

/// PWM channel 30.
pub struct PWMCHAN30;

/// PWM channel 31.
pub struct PWMCHAN31;

/// Every peripheral of the device, once.
#[allow(non_snake_case)]
pub struct Peripherals {
    pub HART1: HART1,
    pub CLINT: CLINT,
    pub WDT: WDT,
    pub UART0: UART0,
    pub UART1: UART1,
    pub GPTMR: GPTMR,
    pub TRNG: TRNG,
    pub DMA: DMA,
    pub GPIO: GPIO,
    pub PWM: PWM,
    pub SPI: SPI,
    pub TWI: TWI,
    pub PORT0: PORT0,
    pub PORT1: PORT1,
    pub PORT2: PORT2,
    pub PORT3: PORT3,
    pub PORT4: PORT4,
    pub PORT5: PORT5,
    pub PORT6: PORT6,
    pub PORT7: PORT7,
    pub PORT8: PORT8,
    pub PORT9: PORT9,
    pub PORT10: PORT10,
    pub PORT11: PORT11,
    pub PORT12: PORT12,
    pub PORT13: PORT13,
    pub PORT14: PORT14,
    pub PORT15: PORT15,
    pub PORT16: PORT16,
    pub PORT17: PORT17,
    pub PORT18: PORT18,
    pub PORT19: PORT19,
    pub PORT20: PORT20,
    pub PORT21: PORT21,
    pub PORT22: PORT22,
    pub PORT23: PORT23,
    pub PORT24: PORT24,
    pub PORT25: PORT25,
    pub PORT26: PORT26,
    pub PORT27: PORT27,
    pub PORT28: PORT28,
    pub PORT29: PORT29,
    pub PORT30: PORT30,
    pub PORT31: PORT31,
    pub PWMCHAN0: PWMCHAN0,
    pub PWMCHAN1: PWMCHAN1,
    pub PWMCHAN2: PWMCHAN2,
    pub PWMCHAN3: PWMCHAN3,
    pub PWMCHAN4: PWMCHAN4,
    pub PWMCHAN5: PWMCHAN5,
    pub PWMCHAN6: PWMCHAN6,
    pub PWMCHAN7: PWMCHAN7,
    pub PWMCHAN8: PWMCHAN8,
    pub PWMCHAN9: PWMCHAN9,
    pub PWMCHAN10: PWMCHAN10,
    pub PWMCHAN11: PWMCHAN11,
    pub PWMCHAN12: PWMCHAN12,
    pub PWMCHAN13: PWMCHAN13,
    pub PWMCHAN14: PWMCHAN14,
    pub PWMCHAN15: PWMCHAN15,
    pub PWMCHAN16: PWMCHAN16,
    pub PWMCHAN17: PWMCHAN17,
    pub PWMCHAN18: PWMCHAN18,
    pub PWMCHAN19: PWMCHAN19,
    pub PWMCHAN20: PWMCHAN20,
    pub PWMCHAN21: PWMCHAN21,
    pub PWMCHAN22: PWMCHAN22,
    pub PWMCHAN23: PWMCHAN23,
    pub PWMCHAN24: PWMCHAN24,
    pub PWMCHAN25: PWMCHAN25,
    pub PWMCHAN26: PWMCHAN26,
    pub PWMCHAN27: PWMCHAN27,
    pub PWMCHAN28: PWMCHAN28,
    pub PWMCHAN29: PWMCHAN29,
    pub PWMCHAN30: PWMCHAN30,
    pub PWMCHAN31: PWMCHAN31,
}

impl Peripherals {
    /// Hands the peripherals out. This can be done once: `taken` records it.
    pub fn take(taken: &mut bool) -> (p: Self)
        requires
            !*old(taken),
        ensures
            *final(taken),
    {
        *taken = true;
        Peripherals {
            HART1: HART1,
            CLINT: CLINT,
            WDT: WDT,
            UART0: UART0,
            UART1: UART1,
            GPTMR: GPTMR,
            TRNG: TRNG,
            DMA: DMA,
            GPIO: GPIO,
            PWM: PWM,
            SPI: SPI,
            TWI: TWI,
            PORT0: PORT0,
            PORT1: PORT1,
            PORT2: PORT2,
            PORT3: PORT3,
            PORT4: PORT4,
            PORT5: PORT5,
            PORT6: PORT6,
            PORT7: PORT7,
            PORT8: PORT8,
            PORT9: PORT9,
            PORT10: PORT10,
            PORT11: PORT11,
            PORT12: PORT12,
            PORT13: PORT13,
            PORT14: PORT14,
            PORT15: PORT15,
            PORT16: PORT16,
            PORT17: PORT17,
            PORT18: PORT18,
            PORT19: PORT19,
            PORT20: PORT20,
            PORT21: PORT21,
            PORT22: PORT22,
            PORT23: PORT23,
            PORT24: PORT24,
            PORT25: PORT25,
            PORT26: PORT26,
            PORT27: PORT27,
            PORT28: PORT28,
            PORT29: PORT29,
            PORT30: PORT30,
            PORT31: PORT31,
            PWMCHAN0: PWMCHAN0,
            PWMCHAN1: PWMCHAN1,
            PWMCHAN2: PWMCHAN2,
            PWMCHAN3: PWMCHAN3,
            PWMCHAN4: PWMCHAN4,
            PWMCHAN5: PWMCHAN5,
            PWMCHAN6: PWMCHAN6,
            PWMCHAN7: PWMCHAN7,
            PWMCHAN8: PWMCHAN8,
            PWMCHAN9: PWMCHAN9,
            PWMCHAN10: PWMCHAN10,
            PWMCHAN11: PWMCHAN11,
            PWMCHAN12: PWMCHAN12,
            PWMCHAN13: PWMCHAN13,
            PWMCHAN14: PWMCHAN14,
            PWMCHAN15: PWMCHAN15,
            PWMCHAN16: PWMCHAN16,
            PWMCHAN17: PWMCHAN17,
            PWMCHAN18: PWMCHAN18,
            PWMCHAN19: PWMCHAN19,
            PWMCHAN20: PWMCHAN20,
            PWMCHAN21: PWMCHAN21,
            PWMCHAN22: PWMCHAN22,
            PWMCHAN23: PWMCHAN23,
            PWMCHAN24: PWMCHAN24,
            PWMCHAN25: PWMCHAN25,
            PWMCHAN26: PWMCHAN26,
            PWMCHAN27: PWMCHAN27,
            PWMCHAN28: PWMCHAN28,
            PWMCHAN29: PWMCHAN29,
            PWMCHAN30: PWMCHAN30,
            PWMCHAN31: PWMCHAN31,
        }
    }
}

} // verus!
